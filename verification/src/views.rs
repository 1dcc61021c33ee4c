//! Lifting a view through `Option` and through sequences.

use vstd::prelude::*;

verus! {

/// The view of what an `Option` holds.
pub open spec fn opt_view<T: View>(o: Option<T>) -> Option<T::V> {
    match o {
        Some(t) => Some(t@),
        None => None,
    }
}

/// The views of the members of a sequence, in order.
pub open spec fn seq_view<T: View>(s: Seq<T>) -> Seq<T::V> {
    Seq::new(s.len(), |i: int| s[i]@)
}

/// Viewing commutes with appending one member.
pub broadcast proof fn lemma_seq_view_push<T: View>(s: Seq<T>, t: T)
    ensures
        #[trigger] seq_view(s.push(t)) == seq_view(s).push(t@),
{
    assert(seq_view(s.push(t)) =~= seq_view(s).push(t@));
}

/// Viewing commutes with concatenation.
pub broadcast proof fn lemma_seq_view_add<T: View>(s: Seq<T>, t: Seq<T>)
    ensures
        #[trigger] seq_view(s + t) == seq_view(s) + seq_view(t),
{
    assert(seq_view(s + t) =~= seq_view(s) + seq_view(t));
}

/// Viewing commutes with taking a subrange.
pub broadcast proof fn lemma_seq_view_subrange<T: View>(s: Seq<T>, i: int, j: int)
    requires
        0 <= i <= j <= s.len(),
    ensures
        #[trigger] seq_view(s.subrange(i, j)) == seq_view(s).subrange(i, j),
{
    assert(seq_view(s.subrange(i, j)) =~= seq_view(s).subrange(i, j));
}

/// The empty sequence has the empty view.
pub broadcast proof fn lemma_seq_view_empty<T: View>()
    ensures
        #[trigger] seq_view(Seq::<T>::empty()) == Seq::<T::V>::empty(),
{
    assert(seq_view(Seq::<T>::empty()) =~= Seq::<T::V>::empty());
}

pub broadcast group group_seq_view {
    lemma_seq_view_push,
    lemma_seq_view_add,
    lemma_seq_view_subrange,
    lemma_seq_view_empty,
}

/// A copy of a list of strings.
pub fn clone_strings(v: &Vec<String>) -> (r: Vec<String>)
    ensures
        seq_view(r@) == seq_view(v@),
{
    let mut r: Vec<String> = Vec::new();
    let mut i: usize = 0;
    while i < v.len()
        invariant
            i <= v.len(),
            r@.len() == i,
            forall|k: int| 0 <= k < i ==> (#[trigger] r@[k])@ == v@[k]@,
        decreases v.len() - i,
    {
        r.push(v[i].clone());
        i = i + 1;
    }
    assert(seq_view(r@) =~= seq_view(v@));
    r
}

/// A copy of an optional string.
pub fn clone_opt_string(o: &Option<String>) -> (r: Option<String>)
    ensures
        opt_view(r) == opt_view(*o),
{
    match o {
        Some(s) => Some(s.clone()),
        None => None,
    }
}

} // verus!
