//! A type-erased form of `std::mem::Discriminant<T>`.

mod discriminant;
pub mod laws;
mod outside;

pub use discriminant::{same_tag, small_discriminant, Discriminant, ErasedTag};
