//! A wrapper for fieldless enums that can also hold an integer no variant has.
//!
//! A [`VastEnum`] stores a discriminant exactly as it was given and decodes it only
//! on request. A value that came off a wire or out of foreign memory therefore
//! survives untouched even when it names no variant of the enum it is meant for.
//!
//! The enum converts into its integer type with `Into`, and the integer type
//! attempts the way back with `TryInto`. Both conversions are the caller's; this
//! crate states what each operation does in terms of them (see [`repr`]).

pub mod compare;
pub mod convert;
pub mod laws;
pub mod render;
pub mod repr;
pub mod wrapper;

pub use crate::repr::EnumRepr;
pub use crate::wrapper::VastEnum;
