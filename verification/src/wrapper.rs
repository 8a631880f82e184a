//! The wrapper itself: construction, access to the stored integer, decoding,
//! casting between enums and mapping.
//!
//! The model of a wrapper is its stored integer, which is its view. Each operation
//! has a `spec_` counterpart that says what it computes where the conversions
//! follow their specification, and a clause that holds of every conversion.

use crate::repr::decode;
use crate::repr::decoding_specified;
use crate::repr::encode;
use crate::repr::encoding_specified;
use crate::repr::may_decode;
use crate::repr::may_encode;
use crate::repr::EnumRepr;
use core::convert::TryInto;
use core::marker::PhantomData;
use vstd::prelude::*;

verus! {

/// An integer discriminant tagged with the enum it is meant for.
///
/// The integer is kept as given. It is never validated, normalised or changed behind
/// the caller's back, so it may or may not be the discriminant of a variant of
/// `Enum`. The tag exists at compile time only.
#[derive(Ord)]
pub struct VastEnum<Enum, Repr>(Repr, PhantomData<Enum>) where
    Enum: Into<Repr>,
    Repr: EnumRepr<Enum>,
;

impl<Enum, Repr> View for VastEnum<Enum, Repr> where Enum: Into<Repr>, Repr: EnumRepr<Enum> {
    type V = Repr;

    /// A wrapper is its stored integer and nothing else.
    closed spec fn view(&self) -> Repr {
        self.0
    }
}

impl<Enum, Repr> Clone for VastEnum<Enum, Repr> where Enum: Into<Repr>, Repr: EnumRepr<Enum> {
    /// A wrapper can be copied whether or not `Enum` can.
    fn clone(&self) -> (r: Self)
        ensures
            r == *self,
    {
        *self
    }
}

impl<Enum, Repr> Copy for VastEnum<Enum, Repr> where Enum: Into<Repr>, Repr: EnumRepr<Enum> {

}

impl<Enum, Repr> Default for VastEnum<Enum, Repr> where Enum: Into<Repr>, Repr: EnumRepr<Enum> {
    /// Wraps a default value of `Repr`, whether or not it names a variant.
    fn default() -> (r: Self)
        ensures
            call_ensures(Repr::default, (), r@),
    {
        VastEnum(Repr::default(), PhantomData)
    }
}

impl<Enum, Repr> VastEnum<Enum, Repr> where Enum: Into<Repr>, Repr: EnumRepr<Enum> {
    /// The wrapper that stores `raw`.
    pub closed spec fn spec_from_int(raw: Repr) -> Self {
        VastEnum(raw, PhantomData)
    }

    /// The wrapper that stores the discriminant of `variant`.
    pub open spec fn spec_from_variant(variant: Enum) -> Self {
        Self::spec_from_int(encode(variant))
    }

    /// The variant that the stored integer names, if it names one.
    pub open spec fn spec_variant(self) -> Option<Enum> {
        decode(self@)
    }

    /// The stored integer names a variant.
    pub open spec fn spec_is_valid(self) -> bool {
        self.spec_variant().is_some()
    }

    /// The same integer, tagged for `EnumNew`.
    pub open spec fn spec_cast<EnumNew>(self) -> VastEnum<EnumNew, Repr> where
        EnumNew: Into<Repr>,
        Repr: EnumRepr<EnumNew>,
     {
        VastEnum::<EnumNew, Repr>::spec_from_int(self@)
    }

    /// The wrapper of the transformed variant where the integer names one, else the
    /// same integer tagged for `EnumOut`.
    pub open spec fn spec_map<EnumOut>(self, g: spec_fn(Enum) -> EnumOut) -> VastEnum<
        EnumOut,
        Repr,
    > where EnumOut: Into<Repr>, Repr: EnumRepr<EnumOut> {
        match self.spec_variant() {
            Some(from) => VastEnum::<EnumOut, Repr>::spec_from_variant(g(from)),
            None => self.spec_cast(),
        }
    }

    /// Mapping `raw` with `f` can give `out`: either `raw` can fail to decode and
    /// `out` is `raw` itself, or `raw` can decode to a variant, `f` can take that
    /// variant to another, and that one can encode to `out`.
    pub open spec fn may_map<EnumOut, F>(raw: Repr, f: F, out: Repr) -> bool where
        EnumOut: Into<Repr>,
        Repr: EnumRepr<EnumOut>,
        F: FnOnce(Enum) -> EnumOut,
     {
        ||| may_decode::<Enum, Repr>(raw, None) && out == raw
        ||| exists|from: Enum, to: EnumOut|
            {
                &&& #[trigger] may_decode(raw, Some(from))
                &&& #[trigger] call_ensures(f, (from,), to)
                &&& may_encode(to, out)
            }
    }

    /// On the variant that the stored integer names, if any, `f` returns what `g` says.
    pub open spec fn agrees<EnumOut, F>(self, f: F, g: spec_fn(Enum) -> EnumOut) -> bool where
        F: FnOnce(Enum) -> EnumOut,
     {
        forall|from: Enum, to: EnumOut|
            self.spec_variant() == Some(from) && #[trigger] call_ensures(f, (from,), to) ==> to
                == g(from)
    }

    /// Storing an integer and reading it back gives that integer: wrapping alters
    /// nothing.
    pub proof fn lemma_from_int_keeps(raw: Repr)
        ensures
            Self::spec_from_int(raw)@ == raw,
    {
    }

    /// Two wrappers for one enum that store the same integer are the same value.
    pub proof fn lemma_same_int_same_wrapper(a: Self, b: Self)
        ensures
            a@ == b@ <==> a == b,
    {
    }

    /// Wraps an integer as it is, whether or not it names a variant.
    pub fn from_int(discriminant: Repr) -> (r: Self)
        ensures
            r@ == discriminant,
            r == Self::spec_from_int(discriminant),
    {
        VastEnum(discriminant, PhantomData)
    }

    /// Returns the stored integer.
    pub fn to_int(self) -> (r: Repr)
        ensures
            r == self@,
    {
        self.0
    }

    /// Shows the stored integer in place.
    pub(crate) fn int_ref(&self) -> (r: &Repr)
        ensures
            *r == self@,
    {
        &self.0
    }

    /// Lends the stored integer for writing. Whatever is written becomes the stored
    /// integer, whatever it is.
    pub fn int_mut(&mut self) -> (r: &mut Repr)
        ensures
            *r == old(self)@,
            final(self)@ == *final(r),
    {
        &mut self.0
    }

    /// Tags the same integer for another enum, without decoding it. Whether it
    /// names a variant of `EnumNew` is a separate question.
    pub fn cast<EnumNew>(self) -> (r: VastEnum<EnumNew, Repr>) where
        EnumNew: Into<Repr>,
        Repr: EnumRepr<EnumNew>,

        ensures
            r@ == self@,
            r == self.spec_cast::<EnumNew>(),
    {
        VastEnum::from_int(self.0)
    }

    /// Wraps the discriminant of `variant`.
    pub fn from_variant(variant: Enum) -> (r: Self)
        ensures
            may_encode(variant, r@),
            encoding_specified::<Enum, Repr>() ==> r == Self::spec_from_variant(variant),
    {
        VastEnum(variant.into(), PhantomData)
    }

    /// Decodes the stored integer as it is now: `Some` of the variant it names,
    /// `None` where it names none.
    pub fn variant(self) -> (r: Option<Enum>)
        ensures
            may_decode(self@, r),
            decoding_specified::<Enum, Repr>() ==> r == self.spec_variant(),
    {
        self.0.try_into().ok()
    }

    /// Tells whether the stored integer names a variant.
    pub fn is_valid(self) -> (r: bool)
        ensures
            exists|out: Option<Enum>| #[trigger] may_decode(self@, out) && r == out.is_some(),
            decoding_specified::<Enum, Repr>() ==> r == self.spec_is_valid(),
    {
        self.variant().is_some()
    }

    /// Transforms the variant that the stored integer names and wraps the result.
    /// An integer that names no variant is passed on as it is, tagged for `EnumOut`.
    ///
    /// `f` must accept every variant that the integer can decode to.
    pub fn map<EnumOut>(self, f: impl FnOnce(Enum) -> EnumOut) -> (r: VastEnum<EnumOut, Repr>) where
        EnumOut: Into<Repr>,
        Repr: EnumRepr<EnumOut>,

        requires
            forall|from: Enum| may_decode(self@, Some(from)) ==> call_requires(f, (from,)),
        ensures
            Self::may_map(self@, f, r@),
            forall|g: spec_fn(Enum) -> EnumOut|
                decoding_specified::<Enum, Repr>() && encoding_specified::<EnumOut, Repr>()
                    && self.agrees(f, g) ==> r == #[trigger] self.spec_map(g),
    {
        match self.variant() {
            Some(enum_) => VastEnum::from_variant(f(enum_)),
            None => self.cast(),
        }
    }
}

} // verus!
