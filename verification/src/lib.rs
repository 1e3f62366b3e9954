//! The object kernel of a small Smalltalk-like value system.
//!
//! Every value is an object: it owns an identity that no other object
//! shares, it can be compared by identity or by value, and it can render
//! itself as text. Two families of values are built on that: the booleans
//! `True` and `False`, and the 64-bit `SmallInteger`.
//!
//! Identities come from an [`identity::IdentityAllocator`] that the caller
//! owns and hands to every constructor.

pub mod boolean;
pub mod error;
pub mod identity;
pub mod object;
pub mod small_integer;
pub mod text;
