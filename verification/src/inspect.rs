//! A one-line description of the value behind a handle.

use vstd::prelude::*;
use vstd::string::StringExecFns;
use crate::array::Array;
use crate::from_value::FromValue;
use crate::ruby::VALUE;
use crate::ruby_type::RubyType;

verus! {

/// A handle that is to be described.
pub struct InspectValue(pub VALUE);

/// What a description needs beside the handle and its flags word: the
/// text that stands between its brackets, which only the runtime can give.
#[derive(Debug, Clone, Copy, PartialEq, Eq, Structural)]
pub enum Detail {
    /// Nothing: the handle says it all.
    Nothing,
    /// The integer that the handle encodes, in decimal.
    Integer,
    /// The float behind the handle, as it prints.
    Float,
    /// The text of the string behind the handle.
    Text,
    /// What the runtime's `inspect` says of the value.
    Inspection,
}

/// `label`, and `inner` between round brackets after it.
pub open spec fn bracketed(label: Seq<char>, inner: Seq<char>) -> Seq<char> {
    label + seq!['('] + inner + seq![')']
}

pub(crate) fn bracket(label: &str, inner: &str) -> (s: String)
    ensures
        s@ == bracketed(label@, inner@),
{
    proof {
        reveal_strlit("(");
        reveal_strlit(")");
        assert("("@ =~= seq!['(']);
        assert(")"@ =~= seq![')']);
    }
    let mut s = String::from_str(label);
    s.append("(");
    s.append(inner);
    s.append(")");
    s
}

impl InspectValue {
    /// The detail that the description of a value of type `ty` needs.
    pub open spec fn detail_of(ty: RubyType) -> Detail {
        match ty {
            RubyType::Nil | RubyType::True | RubyType::False => Detail::Nothing,
            RubyType::Fixnum => Detail::Integer,
            RubyType::Float => Detail::Float,
            RubyType::String => Detail::Text,
            _ => Detail::Inspection,
        }
    }

    /// The description of a value of type `ty`, given the text `detail`
    /// that `detail_of(ty)` asks for.
    pub open spec fn description(ty: RubyType, detail: Seq<char>) -> Seq<char> {
        match ty {
            RubyType::Nil => "Nil"@,
            RubyType::Fixnum => bracketed("Fixnum"@, detail),
            RubyType::Float => bracketed("Float"@, detail),
            RubyType::True => bracketed("Bool"@, "true"@),
            RubyType::False => bracketed("Bool"@, "false"@),
            RubyType::String => bracketed("String"@, detail),
            RubyType::Array => bracketed("Array"@, detail),
            RubyType::Hash => bracketed("Hash"@, detail),
            _ => bracketed("Object"@, detail),
        }
    }

    /// Says which text the caller has to get from the runtime before it
    /// asks for the description. `flags` is the flags word of the object
    /// that the handle points to.
    pub fn detail(&self, flags: VALUE) -> (d: Detail)
        ensures
            d == Self::detail_of(RubyType::of(self.0, flags)),
    {
        match RubyType::from_value(self.0, flags) {
            RubyType::Nil | RubyType::True | RubyType::False => Detail::Nothing,
            RubyType::Fixnum => Detail::Integer,
            RubyType::Float => Detail::Float,
            RubyType::String => Detail::Text,
            _ => Detail::Inspection,
        }
    }

    /// The description: the name of the kind of value and, between
    /// brackets, `detail`, which is the text that `self.detail(flags)`
    /// asked for. `nil` is described by its name alone, and a boolean needs
    /// no detail.
    pub fn describe(&self, flags: VALUE, detail: &str) -> (s: String)
        ensures
            s@ == Self::description(RubyType::of(self.0, flags), detail@),
    {
        let ruby_type = RubyType::from_value(self.0, flags);
        match ruby_type {
            RubyType::Nil => String::from_str("Nil"),
            RubyType::Fixnum => bracket("Fixnum", detail),
            RubyType::Float => bracket("Float", detail),
            RubyType::True | RubyType::False => {
                if bool::from_value_unchecked(self.0, flags) {
                    bracket("Bool", "true")
                } else {
                    bracket("Bool", "false")
                }
            },
            RubyType::String => bracket("String", detail),
            RubyType::Array => Array::from_value_unchecked(self.0, flags).describe(detail),
            RubyType::Hash => crate::hash::Hash::from_value_unchecked(self.0, flags).describe(detail),
            _ => bracket("Object", detail),
        }
    }
}

} // verus!
