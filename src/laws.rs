//! What holds of every erased tag, stated over its view.
use crate::discriminant::{same_tag, Discriminant};
use vstd::prelude::*;

verus! {

/// Every erased tag equals itself.
pub proof fn lemma_eq_reflexive(d: &Discriminant)
    ensures
        same_tag(d@, d@),
{
}

/// Tags whose types differ are never equal, even where the tags themselves
/// read the same.
pub proof fn lemma_different_types_unequal(a: &Discriminant, b: &Discriminant)
    requires
        a@.fingerprint != b@.fingerprint,
    ensures
        !same_tag(a@, b@),
{
}

/// Between tags of one type, equality is equality of the tags: different
/// variants compare unequal, the same variant equal.
pub proof fn lemma_same_type_compares_tags(a: &Discriminant, b: &Discriminant)
    requires
        a@.fingerprint == b@.fingerprint,
    ensures
        same_tag(a@, b@) <==> a@.tag == b@.tag,
{
}

/// Equal erased tags feed a hasher the same input: the fingerprint, then the
/// tag, which are the whole of what each holds.
pub proof fn lemma_equal_tags_hash_alike(a: &Discriminant, b: &Discriminant)
    requires
        same_tag(a@, b@),
    ensures
        a@ == b@,
{
}

} // verus!
