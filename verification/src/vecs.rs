//! Copies of texts and records that keep their values.

use vstd::prelude::*;

verus! {

/// A copy of the texts.
pub fn clone_texts(texts: &Vec<String>) -> (copy: Vec<String>)
    ensures
        copy.deep_view() == texts.deep_view(),
{
    let mut copy: Vec<String> = Vec::new();
    let mut i: usize = 0;
    while i < texts.len()
        invariant
            i <= texts.len(),
            copy.len() == i,
            forall|k: int| 0 <= k < i ==> (#[trigger] copy[k])@ == texts[k]@,
        decreases texts.len() - i,
    {
        copy.push(texts[i].clone());
        i = i + 1;
    }
    proof {
        assert(copy.deep_view() =~= texts.deep_view());
    }
    copy
}

/// A copy of the records, for records whose copies keep their value.
pub(crate) fn clone_records<T: Clone + DeepView>(records: &Vec<T>) -> (copy: Vec<T>)
    requires
        forall|from: T, to: T|
            #[trigger] cloned::<T>(from, to) ==> to.deep_view() == from.deep_view(),
    ensures
        copy.deep_view() == records.deep_view(),
{
    let mut copy: Vec<T> = Vec::new();
    let mut i: usize = 0;
    while i < records.len()
        invariant
            i <= records.len(),
            copy.len() == i,
            forall|from: T, to: T|
                #[trigger] cloned::<T>(from, to) ==> to.deep_view() == from.deep_view(),
            forall|k: int|
                0 <= k < i ==> (#[trigger] copy[k]).deep_view() == records[k].deep_view(),
        decreases records.len() - i,
    {
        let item = records[i].clone();
        assert(cloned::<T>(records[i as int], item));
        copy.push(item);
        i = i + 1;
    }
    proof {
        assert(copy.deep_view() =~= records.deep_view());
    }
    copy
}

/// A copy of a text that may be absent.
pub fn clone_optional_text(text: &Option<String>) -> (copy: Option<String>)
    ensures
        copy.deep_view() == text.deep_view(),
{
    match text {
        Some(text) => Some(text.clone()),
        None => None,
    }
}

/// A copy of a list of texts that may be absent.
pub fn clone_optional_texts(texts: &Option<Vec<String>>) -> (copy: Option<Vec<String>>)
    ensures
        copy.deep_view() == texts.deep_view(),
{
    match texts {
        Some(texts) => Some(clone_texts(texts)),
        None => None,
    }
}

} // verus!
