//! The calls this library makes into `typeid` and into parts of std that
//! vstd leaves without a specification.
use std::any::TypeId;
use vstd::prelude::*;

verus! {

/// `std::any::TypeId`, the fingerprint that `typeid::of` hands back.
#[verifier::external_type_specification]
#[verifier::external_body]
pub struct ExTypeId(TypeId);

/// `std::mem::Discriminant<T>`, the native variant tag of `T`.
#[verifier::external_type_specification]
#[verifier::external_body]
#[verifier::reject_recursive_types(T)]
pub struct ExDiscriminant<T>(std::mem::Discriminant<T>);

/// Relies on `typeid::of`: the `TypeId` of `T` with every lifetime taken as
/// `'static`. Nothing is known of the value beyond its type.
pub assume_specification<T: ?Sized>[ typeid::of::<T> ]() -> (r: TypeId);

/// Relies on `std::mem::discriminant`: the variant tag of `v`, which does not
/// borrow from `v`.
pub assume_specification<T>[ std::mem::discriminant::<T> ](v: &T) -> (r: std::mem::Discriminant<T>);

/// Relies on `TypeId`'s `==`: it holds exactly when both identifiers are the
/// same value.
#[verifier::external_body]
pub(crate) fn same_type_id(a: &TypeId, b: &TypeId) -> (r: bool)
    ensures
        r == (*a == *b),
{
    *a == *b
}

/// Relies on the `Debug` rendering of `std::mem::Discriminant<T>`, which shows
/// the tag it holds.
#[verifier::external_body]
pub(crate) fn render_tag<T>(tag: &std::mem::Discriminant<T>) -> (r: String) {
    format!("{:?}", tag)
}

} // verus!
