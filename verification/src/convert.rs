//! A wrapper where a variant or a bare integer is at hand, and the other way round.

use crate::repr::encoding_specified;
use crate::repr::may_encode;
use crate::repr::EnumRepr;
use crate::wrapper::VastEnum;
use core::borrow::Borrow;
use vstd::prelude::*;
use vstd::std_specs::convert::FromSpecImpl;

verus! {

impl<Enum, Repr> From<Enum> for VastEnum<Enum, Repr> where Enum: Into<Repr>, Repr: EnumRepr<Enum> {
    /// Wraps the discriminant of a variant, as [`VastEnum::from_variant`] does.
    fn from(enum_: Enum) -> (r: Self)
        ensures
            may_encode(enum_, r@),
    {
        VastEnum::from_variant(enum_)
    }
}

impl<Enum, Repr> FromSpecImpl<Enum> for VastEnum<Enum, Repr> where Enum: Into<Repr>, Repr: EnumRepr<Enum> {
    open spec fn obeys_from_spec() -> bool {
        encoding_specified::<Enum, Repr>()
    }

    open spec fn from_spec(enum_: Enum) -> Self {
        Self::spec_from_variant(enum_)
    }
}

impl<Enum, Repr> AsRef<Repr> for VastEnum<Enum, Repr> where Enum: Into<Repr>, Repr: EnumRepr<Enum> {
    /// Shows the wrapper as its bare integer.
    fn as_ref(&self) -> (r: &Repr)
        ensures
            *r == self@,
    {
        self.int_ref()
    }
}

impl<Enum, Repr> AsMut<Repr> for VastEnum<Enum, Repr> where Enum: Into<Repr>, Repr: EnumRepr<Enum> {
    /// Lends the bare integer for writing, as [`VastEnum::int_mut`] does.
    fn as_mut(&mut self) -> (r: &mut Repr)
        ensures
            *r == old(self)@,
            final(self)@ == *final(r),
    {
        self.int_mut()
    }
}

impl<Enum, Repr> Borrow<Repr> for VastEnum<Enum, Repr> where Enum: Into<Repr>, Repr: EnumRepr<Enum> {
    /// Shows the wrapper as its bare integer.
    fn borrow(&self) -> &Repr
        returns
            self@,
    {
        self.int_ref()
    }
}

} // verus!
