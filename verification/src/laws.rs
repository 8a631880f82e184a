//! What holds of the operations taken together.
//!
//! Each statement is over the `spec_` counterparts of the operations, which the
//! operations' own contracts tie them to. Two more stand beside the definitions
//! they rest on: [`VastEnum::lemma_from_int_keeps`] and
//! [`VastEnum::lemma_same_int_same_wrapper`].

use crate::repr::round_trips;
use crate::repr::EnumRepr;
use crate::wrapper::VastEnum;
use vstd::prelude::*;
use vstd::std_specs::cmp::PartialEqSpec;
use vstd::std_specs::cmp::PartialOrdSpec;

verus! {

/// A wrapper made from a variant decodes to that variant, provided the variant
/// decodes back from its own discriminant.
pub proof fn lemma_from_variant_decodes<Enum, Repr>(variant: Enum) where
    Enum: Into<Repr>,
    Repr: EnumRepr<Enum>,

    requires
        round_trips::<Enum, Repr>(variant),
    ensures
        VastEnum::<Enum, Repr>::spec_from_variant(variant).spec_variant() == Some(variant),
        VastEnum::<Enum, Repr>::spec_from_variant(variant).spec_is_valid(),
{
    VastEnum::<Enum, Repr>::lemma_from_int_keeps(crate::repr::encode(variant));
}

/// A wrapper is valid exactly when it decodes to a variant.
pub proof fn lemma_valid_iff_decodes<Enum, Repr>(w: VastEnum<Enum, Repr>) where
    Enum: Into<Repr>,
    Repr: EnumRepr<Enum>,

    ensures
        w.spec_is_valid() == w.spec_variant().is_some(),
{
}

/// Casting keeps the stored integer, whatever the two enums are.
pub proof fn lemma_cast_keeps_int<Enum, EnumNew, Repr>(w: VastEnum<Enum, Repr>) where
    Enum: Into<Repr>,
    EnumNew: Into<Repr>,
    Repr: EnumRepr<Enum> + EnumRepr<EnumNew>,

    ensures
        w.spec_cast::<EnumNew>()@ == w@,
{
    VastEnum::<EnumNew, Repr>::lemma_from_int_keeps(w@);
}

/// Mapping a wrapper that is not valid keeps the stored integer, whatever the
/// transform is.
pub proof fn lemma_map_keeps_invalid<Enum, EnumOut, Repr>(
    w: VastEnum<Enum, Repr>,
    g: spec_fn(Enum) -> EnumOut,
) where Enum: Into<Repr>, EnumOut: Into<Repr>, Repr: EnumRepr<Enum> + EnumRepr<EnumOut>
    requires
        !w.spec_is_valid(),
    ensures
        w.spec_map(g)@ == w@,
        w.spec_map(g) == w.spec_cast::<EnumOut>(),
{
    lemma_cast_keeps_int::<Enum, EnumOut, Repr>(w);
}

/// Mapping a wrapper that decodes to `from` gives a wrapper that decodes to the
/// transformed variant, provided that one decodes back from its own discriminant.
pub proof fn lemma_map_transforms_valid<Enum, EnumOut, Repr>(
    w: VastEnum<Enum, Repr>,
    g: spec_fn(Enum) -> EnumOut,
    from: Enum,
) where Enum: Into<Repr>, EnumOut: Into<Repr>, Repr: EnumRepr<Enum> + EnumRepr<EnumOut>
    requires
        w.spec_variant() == Some(from),
        round_trips::<EnumOut, Repr>(g(from)),
    ensures
        w.spec_map(g).spec_variant() == Some(g(from)),
{
    lemma_from_variant_decodes::<EnumOut, Repr>(g(from));
}

/// Wrappers of one integer are the same value once they carry the same tag, and
/// `==` and the order tell of them what they tell of the two integers: the enum
/// that a wrapper was made for leaves no trace.
pub proof fn lemma_tag_leaves_no_trace<EnumA, EnumB, Repr>(
    a: VastEnum<EnumA, Repr>,
    b: VastEnum<EnumB, Repr>,
) where EnumA: Into<Repr>, EnumB: Into<Repr>, Repr: EnumRepr<EnumA> + EnumRepr<EnumB>
    requires
        a@ == b@,
    ensures
        a.spec_cast::<EnumB>() == b,
        a.spec_cast::<EnumB>().eq_spec(&b) == a@.eq_spec(&b@),
        a.spec_cast::<EnumB>().partial_cmp_spec(&b) == a@.partial_cmp_spec(&b@),
{
    lemma_cast_keeps_int::<EnumA, EnumB, Repr>(a);
    VastEnum::<EnumB, Repr>::lemma_same_int_same_wrapper(a.spec_cast::<EnumB>(), b);
}

} // verus!
