//! The integer side of a wrapper, and the model of the two conversions between an
//! enum and its integer type.
//!
//! The conversions are ordinary `Into` and `TryInto` impls. Two vocabularies speak
//! of them. The first holds of every impl: [`may_encode`] and [`may_decode`] say that
//! the impl's own contract allows an outcome. The second holds of an impl that
//! follows its specification ([`encoding_specified`], [`decoding_specified`]): there
//! [`encode`] and [`decode`] are functions, and the first vocabulary reduces to them
//! ([`lemma_encode_is_function`], [`lemma_decode_is_function`]).

use core::convert::TryInto;
use core::hash::Hash;
use vstd::prelude::*;
use vstd::std_specs::convert::IntoSpec;
use vstd::std_specs::convert::TryIntoSpec;

verus! {

/// What an integer type needs in order to back the enum `Enum`: it is a plain value
/// that can be copied, compared, ordered and hashed, it has a default, and it can
/// attempt the conversion into `Enum`.
///
/// Every type with these capabilities has this trait.
pub trait EnumRepr<Enum>: Copy + Default + Hash + Eq + Ord + TryInto<Enum> {

}

impl<Enum, Repr> EnumRepr<Enum> for Repr where
    Repr: Copy + Default + Hash + Eq + Ord + TryInto<Enum>,
 {
}

/// Converting `variant` can give `raw`: the contract of `Into::into` allows it.
pub open spec fn may_encode<Enum: Into<Repr>, Repr>(variant: Enum, raw: Repr) -> bool {
    call_ensures(<Enum as Into<Repr>>::into, (variant,), raw)
}

/// Decoding `raw` can give `out`: the contract of `TryInto::try_into` allows an
/// outcome that succeeds with that variant or, where `out` is `None`, one that fails.
pub open spec fn may_decode<Enum, Repr: TryInto<Enum>>(raw: Repr, out: Option<Enum>) -> bool {
    exists|outcome: Result<Enum, <Repr as TryInto<Enum>>::Error>|
        #[trigger] call_ensures(<Repr as TryInto<Enum>>::try_into, (raw,), outcome) && out
            == outcome.ok()
}

/// The conversion from `Enum` into `Repr` follows its specification.
pub open spec fn encoding_specified<Enum: Into<Repr>, Repr>() -> bool {
    <Enum as IntoSpec<Repr>>::obeys_into_spec()
}

/// The conversion from `Repr` back into `Enum` follows its specification.
pub open spec fn decoding_specified<Enum, Repr: TryInto<Enum>>() -> bool {
    <Repr as TryIntoSpec<Enum>>::obeys_try_into_spec()
}

/// The discriminant of `variant`.
pub open spec fn encode<Enum: Into<Repr>, Repr>(variant: Enum) -> Repr {
    variant.into_spec()
}

/// The variant whose discriminant is `raw`, if there is one. Why a decoding failed
/// is not kept.
pub open spec fn decode<Enum, Repr: TryInto<Enum>>(raw: Repr) -> Option<Enum> {
    raw.try_into_spec().ok()
}

/// `variant` decodes back from its own discriminant.
///
/// Nothing forces two conversions written apart to agree, so the statements that
/// need this of a variant ask for it.
pub open spec fn round_trips<Enum: Into<Repr>, Repr: TryInto<Enum>>(variant: Enum) -> bool {
    decode::<Enum, Repr>(encode::<Enum, Repr>(variant)) == Some(variant)
}

/// A specified encoding has one outcome, the discriminant.
pub proof fn lemma_encode_is_function<Enum: Into<Repr>, Repr>(variant: Enum, raw: Repr)
    requires
        encoding_specified::<Enum, Repr>(),
        may_encode(variant, raw),
    ensures
        raw == encode::<Enum, Repr>(variant),
{
}

/// A specified decoding has one outcome, up to the error it fails with.
pub proof fn lemma_decode_is_function<Enum, Repr: TryInto<Enum>>(raw: Repr, out: Option<Enum>)
    requires
        decoding_specified::<Enum, Repr>(),
        may_decode(raw, out),
    ensures
        out == decode::<Enum, Repr>(raw),
{
}

} // verus!
