//! The diagnostic text of a wrapper.
//!
//! The text shows the stored integer and, where the integer names a variant, the
//! variant beside it: `VastEnum(2: Green)`, or `VastEnum(5)` where there is none.

use crate::repr::decoding_specified;
use crate::repr::may_decode;
use crate::repr::EnumRepr;
use crate::wrapper::VastEnum;
use core::fmt::Debug;
use vstd::prelude::*;
use vstd::string::StringExecFns;

verus! {

/// The text of a wrapper whose integer is written `raw` and whose variant, if it
/// has one, is written `name`.
pub open spec fn layout(raw: Seq<char>, name: Option<Seq<char>>) -> Seq<char> {
    match name {
        Some(name) => "VastEnum("@ + raw + ": "@ + name + ")"@,
        None => "VastEnum("@ + raw + ")"@,
    }
}

/// The view of an optional text.
pub open spec fn text_of(name: Option<&str>) -> Option<Seq<char>> {
    match name {
        Some(name) => Some(name@),
        None => None,
    }
}

/// Puts the written integer and the written variant, if any, into the text of a
/// wrapper.
pub fn lay_out(raw: &str, name: Option<&str>) -> (r: String)
    ensures
        r@ == layout(raw@, text_of(name)),
{
    let mut text = String::from_str("VastEnum(");
    text.append(raw);
    match name {
        Some(name) => {
            text.append(": ");
            text.append(name);
        },
        None => {},
    }
    text.append(")");
    text
}

/// Formats `value` with `{:?}`. The text is whatever the `Debug` impl of `T`
/// writes, so nothing is claimed of it.
#[verifier::external_body]
fn debug_text<T: Debug>(value: &T) -> String {
    format!("{:?}", value)
}

impl<Enum, Repr> VastEnum<Enum, Repr> where Enum: Into<Repr>, Repr: EnumRepr<Enum> {
    /// Writes the wrapper for diagnostics: the stored integer as its `Debug` impl
    /// writes it and, where the integer names a variant, the variant as its `Debug`
    /// impl writes it.
    pub fn debug_string(&self) -> (r: String) where Enum: Debug, Repr: Debug
        ensures
            exists|raw: Seq<char>, name: Option<Seq<char>>, out: Option<Enum>|
                {
                    &&& #[trigger] may_decode(self@, out)
                    &&& name.is_some() == out.is_some()
                    &&& r@ == #[trigger] layout(raw, name)
                },
            decoding_specified::<Enum, Repr>() ==> exists|raw: Seq<char>, name: Option<Seq<char>>|
                {
                    &&& name.is_some() == self.spec_is_valid()
                    &&& r@ == #[trigger] layout(raw, name)
                },
    {
        let raw = debug_text(self.int_ref());
        match self.variant() {
            Some(enum_) => {
                let name = debug_text(&enum_);
                lay_out(raw.as_str(), Some(name.as_str()))
            },
            None => lay_out(raw.as_str(), None),
        }
    }
}

} // verus!
