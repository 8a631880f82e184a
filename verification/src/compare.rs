//! Equality, order and hashing of wrappers.
//!
//! All three go by the stored integer alone. The enum tag takes no part, so two
//! wrappers of one integer cannot be told apart by any of them.

use crate::repr::EnumRepr;
use crate::wrapper::VastEnum;
use core::cmp::Ordering;
use core::hash::Hash;
use core::hash::Hasher;
use vstd::prelude::*;
use vstd::std_specs::cmp::PartialEqSpec;
use vstd::std_specs::cmp::PartialEqSpecImpl;
use vstd::std_specs::cmp::PartialOrdSpec;
use vstd::std_specs::cmp::PartialOrdSpecImpl;

verus! {

impl<Enum, Repr> PartialEq for VastEnum<Enum, Repr> where Enum: Into<Repr>, Repr: EnumRepr<Enum> {
    /// Compares the stored integers with the `==` of `Repr`.
    fn eq(&self, other: &Self) -> (r: bool) {
        self.to_int() == other.to_int()
    }
}

impl<Enum, Repr> PartialEqSpecImpl for VastEnum<Enum, Repr> where Enum: Into<Repr>, Repr: EnumRepr<Enum> {
    open spec fn obeys_eq_spec() -> bool {
        Repr::obeys_eq_spec()
    }

    open spec fn eq_spec(&self, other: &Self) -> bool {
        self@.eq_spec(&other@)
    }
}

impl<Enum, Repr> Eq for VastEnum<Enum, Repr> where Enum: Into<Repr>, Repr: EnumRepr<Enum> {

}

impl<Enum, Repr> PartialOrd for VastEnum<Enum, Repr> where Enum: Into<Repr>, Repr: EnumRepr<Enum> {
    /// Orders the stored integers with the order of `Repr`.
    fn partial_cmp(&self, other: &Self) -> (r: Option<Ordering>) {
        self.to_int().partial_cmp(&other.to_int())
    }
}

impl<Enum, Repr> PartialOrdSpecImpl for VastEnum<Enum, Repr> where Enum: Into<Repr>, Repr: EnumRepr<Enum> {
    open spec fn obeys_partial_cmp_spec() -> bool {
        Repr::obeys_partial_cmp_spec()
    }

    open spec fn partial_cmp_spec(&self, other: &Self) -> Option<Ordering> {
        self@.partial_cmp_spec(&other@)
    }
}

impl<Enum, Repr> Hash for VastEnum<Enum, Repr> where Enum: Into<Repr>, Repr: EnumRepr<Enum> {
    /// Calls `Hash::hash` of `Repr` on the stored integer and feeds the hasher
    /// nothing else, so a wrapper hashes as its bare integer does. Hashers have no
    /// model here: nothing is claimed of the state that results.
    #[verifier::external_body]
    fn hash<H: Hasher>(&self, state: &mut H) {
        self.to_int().hash(state)
    }
}

} // verus!
