//! What a binding reads off a literal: one accessor per kind of literal,
//! each giving the literal's value exactly when the literal is of its kind.
use vstd::prelude::*;

use crate::ast::lit::{BigIntValue, Lit};

verus! {

impl Lit {
    /// The pattern of a regular expression literal.
    pub fn regex(&self) -> (r: Option<String>)
        ensures
            r is Some <==> self is Regex,
            self is Regex ==> r == Some(self->Regex_0.exp),
    {
        match self {
            Lit::Regex(x) => Some(x.exp.clone()),
            _ => None,
        }
    }

    /// The value of a string literal.
    pub fn string(&self) -> (r: Option<String>)
        ensures
            r is Some <==> self is Str,
            self is Str ==> r == Some(self->Str_0.value),
    {
        match self {
            Lit::Str(x) => Some(x.value.clone()),
            _ => None,
        }
    }

    /// The value of a boolean literal.
    pub fn bool(&self) -> (r: Option<bool>)
        ensures
            r is Some <==> self is Bool,
            self is Bool ==> r == Some(self->Bool_0.value),
    {
        match self {
            Lit::Bool(x) => Some(x.value),
            _ => None,
        }
    }

    /// The text of a JSX text literal.
    pub fn jsxtext(&self) -> (r: Option<String>)
        ensures
            r is Some <==> self is JSXText,
            self is JSXText ==> r == Some(self->JSXText_0.value),
    {
        match self {
            Lit::JSXText(x) => Some(x.value.clone()),
            _ => None,
        }
    }

    /// Whether the literal is `null`.
    pub fn is_null(&self) -> (r: bool)
        ensures
            r <==> self is Null,
    {
        match self {
            Lit::Null(_) => true,
            _ => false,
        }
    }

    /// The IEEE 754 bits of a numeric literal's value.
    pub fn float_bits(&self) -> (r: Option<u64>)
        ensures
            r is Some <==> self is Num,
            self is Num ==> r == Some(self->Num_0.value_bits),
    {
        match self {
            Lit::Num(x) => Some(x.value_bits),
            _ => None,
        }
    }

    /// The value of a big integer literal: its sign and its digits.
    pub fn bigint(&self) -> (r: Option<BigIntValue>)
        ensures
            r is Some <==> self is BigInt,
            self is BigInt ==> {
                &&& r->Some_0.negative == self->BigInt_0.value.negative
                &&& r->Some_0.digits@ == self->BigInt_0.value.digits@
            },
    {
        match self {
            Lit::BigInt(x) => Some(BigIntValue { negative: x.value.negative, digits: x.value.digits.clone() }),
            _ => None,
        }
    }
}

/// Every literal has exactly one kind: of the accessors `regex`, `string`,
/// `bool`, `jsxtext`, `is_null`, `float_bits` and `bigint`, exactly one
/// reports a value for it.
pub proof fn lemma_lit_has_one_kind(l: Lit)
    ensures
        (l is Regex) as int + (l is Str) as int + (l is Bool) as int + (l is JSXText) as int + (l is Null) as int
            + (l is Num) as int + (l is BigInt) as int == 1,
{
}

} // verus!
