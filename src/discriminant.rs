use crate::outside::{render_tag, same_type_id};
use std::any::TypeId;
use vstd::prelude::*;

verus! {

/// What a `Discriminant` stands for: the fingerprint of the tag's type, and
/// the tag itself in its native rendering.
pub struct ErasedTag {
    pub fingerprint: TypeId,
    pub tag: Seq<char>,
}

/// A type-erased version of `std::mem::Discriminant<T>`.
///
/// Tags of different enums, or of one enum under different lifetimes, can be
/// kept side by side, compared and hashed. Two values are equal only when
/// their tags come from the same type, and are then equal exactly when the
/// tags render alike (`Debug` shows the integer behind a tag).
///
/// The value owns everything it holds and borrows nothing from the enum value
/// it was taken from, so it outlives any borrow inside that value. Every tag
/// is kept the same way, as its rendering in a `String`, whatever its size:
/// this costs one allocation per value and leaves no storage class that a
/// caller could tell apart.
#[derive(Debug, Hash)]
pub struct Discriminant {
    /// Fingerprint of `std::mem::Discriminant<T>`; hashed first.
    type_id: TypeId,
    /// The native tag as `{:?}` shows it.
    text: String,
}

impl View for Discriminant {
    type V = ErasedTag;

    closed spec fn view(&self) -> ErasedTag {
        ErasedTag { fingerprint: self.type_id, tag: self.text@ }
    }
}

impl Discriminant {
    /// The erased tag of the variant that `value` holds.
    pub fn of<T>(value: &T) -> (r: Discriminant) {
        let tag = std::mem::discriminant(value);
        Discriminant { type_id: typeid::of::<std::mem::Discriminant<T>>(), text: render_tag(&tag) }
    }

    /// The same tag, rendered as `Debug` renders `std::mem::Discriminant<T>`.
    pub fn debug_string(&self) -> (r: String)
        ensures
            r@ == self@.tag,
    {
        self.text.clone()
    }
}

/// Equality of erased tags: the same type of tag, and the same tag of it.
pub open spec fn same_tag(a: ErasedTag, b: ErasedTag) -> bool {
    a.fingerprint == b.fingerprint && a.tag == b.tag
}

impl PartialEq for Discriminant {
    fn eq(&self, other: &Discriminant) -> (r: bool)
        ensures
            r == same_tag(self@, other@),
    {
        if !same_type_id(&self.type_id, &other.type_id) {
            return false;
        }
        self.text == other.text
    }
}

impl vstd::std_specs::cmp::PartialEqSpecImpl for Discriminant {
    open spec fn obeys_eq_spec() -> bool {
        true
    }

    open spec fn eq_spec(&self, other: &Discriminant) -> bool {
        same_tag(self@, other@)
    }
}

impl Eq for Discriminant {}

/// Whether the native tag of `T` fits in one machine word (`usize` is
/// pointer-sized), so that it could be held without an allocation of its own.
pub fn small_discriminant<T>() -> (r: bool)
    ensures
        r == (vstd::layout::size_of::<std::mem::Discriminant<T>>()
            <= vstd::layout::size_of::<usize>()),
{
    std::mem::size_of::<std::mem::Discriminant<T>>() <= std::mem::size_of::<usize>()
}

} // verus!
