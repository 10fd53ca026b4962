//! Views of the containers that the data types are built from.

use vstd::prelude::*;

verus! {

/// The views of the elements of a list.
pub open spec fn views<T: View>(list: Seq<T>) -> Seq<T::V> {
    Seq::new(list.len(), |i: int| list[i]@)
}

/// The view of a value that may be absent.
pub open spec fn opt_view<T: View>(value: Option<T>) -> Option<T::V> {
    match value {
        Some(v) => Some(v@),
        None => None,
    }
}

/// The views of the values of a map, under the same keys.
pub open spec fn models<T: View>(map: Map<u128, T>) -> Map<u128, T::V> {
    Map::new(|k: u128| map.contains_key(k), |k: u128| map[k]@)
}

/// Putting a record into a map puts its view into the map of views.
pub proof fn lemma_models_insert<T: View>(map: Map<u128, T>, key: u128, record: T)
    ensures
        models(map.insert(key, record)) == models(map).insert(key, record@),
{
    assert(models(map.insert(key, record)) =~= models(map).insert(key, record@));
}

/// A copy of a text that may be absent.
pub fn clone_opt_text(text: &Option<String>) -> (r: Option<String>)
    ensures
        opt_view(r) == opt_view(*text),
{
    match text {
        Some(s) => Some(s.clone()),
        None => None,
    }
}

/// A copy of a list of texts.
pub fn clone_texts(list: &Vec<String>) -> (r: Vec<String>)
    ensures
        views(r@) == views(list@),
{
    let mut out: Vec<String> = Vec::new();
    let mut i: usize = 0;
    while i < list.len()
        invariant
            i <= list.len(),
            out@.len() == i,
            forall|j: int| 0 <= j < i ==> out@[j]@ == list@[j]@,
        decreases list.len() - i,
    {
        out.push(list[i].clone());
        i = i + 1;
    }
    assert(views(out@) =~= views(list@));
    out
}

} // verus!
