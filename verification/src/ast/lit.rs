use vstd::prelude::*;

use crate::ast::common::Span;

verus! {

/// A literal.
#[derive(Debug, PartialEq, Eq)]
pub enum Lit {
    Str(Str),
    Bool(Bool),
    Null(Null),
    Num(Number),
    BigInt(BigInt),
    Regex(Regex),
    JSXText(JSXText),
}

/// The value of a big integer literal: its sign and its magnitude as
/// base-2^32 digits, least significant first.
#[derive(Debug, PartialEq, Eq)]
pub struct BigIntValue {
    pub negative: bool,
    pub digits: Vec<u32>,
}

#[derive(Debug, PartialEq, Eq)]
pub struct BigInt {
    pub span: Span,
    pub value: Box<BigIntValue>,
    pub raw: Option<String>,
}

#[derive(Debug, PartialEq, Eq)]
pub struct Str {
    pub span: Span,
    pub value: String,
    pub raw: Option<String>,
}

#[derive(Clone, Copy, Debug, PartialEq, Eq)]
pub struct Bool {
    pub span: Span,
    pub value: bool,
}

#[derive(Clone, Copy, Debug, PartialEq, Eq)]
pub struct Null {
    pub span: Span,
}

#[derive(Debug, PartialEq, Eq)]
pub struct Regex {
    pub span: Span,
    pub exp: String,
    pub flags: String,
}

/// A numeric literal; `value_bits` holds the IEEE 754 bits of its value.
#[derive(Debug, PartialEq, Eq)]
pub struct Number {
    pub span: Span,
    pub value_bits: u64,
    pub raw: Option<String>,
}

#[derive(Debug, PartialEq, Eq)]
pub struct JSXText {
    pub span: Span,
    pub value: String,
    pub raw: String,
}



impl Lit {
    /// `self` and `other` are the same tree: equal leaves, and lists of
    /// the same length whose items are the same trees, in order.
    pub open spec fn same_as(self, other: Self) -> bool
        decreases self,
    {
        match self {
            Lit::Str(x) => other is Str && x == other->Str_0,
            Lit::Bool(x) => other is Bool && x == other->Bool_0,
            Lit::Null(x) => other is Null && x == other->Null_0,
            Lit::Num(x) => other is Num && x == other->Num_0,
            Lit::BigInt(x) => other is BigInt && x.same_as(other->BigInt_0),
            Lit::Regex(x) => other is Regex && x == other->Regex_0,
            Lit::JSXText(x) => other is JSXText && x == other->JSXText_0,
        }
    }

    /// Every tree is the same as itself.
    pub proof fn lemma_same_as_reflexive(&self)
        ensures
            self.same_as(*self),
        decreases self,
    {
        match self {
            Lit::Str(x) => {
            },
            Lit::Bool(x) => {
            },
            Lit::Null(x) => {
            },
            Lit::Num(x) => {
            },
            Lit::BigInt(x) => {
                x.lemma_same_as_reflexive();
            },
            Lit::Regex(x) => {
            },
            Lit::JSXText(x) => {
            },
        }
    }
}

impl Clone for Lit {
    fn clone(&self) -> (r: Self)
        ensures
            self.same_as(r),
        decreases self,
    {
        match self {
            Lit::Str(x) => Lit::Str(x.clone()),
            Lit::Bool(x) => Lit::Bool(*x),
            Lit::Null(x) => Lit::Null(*x),
            Lit::Num(x) => Lit::Num(x.clone()),
            Lit::BigInt(x) => Lit::BigInt(x.clone()),
            Lit::Regex(x) => Lit::Regex(x.clone()),
            Lit::JSXText(x) => Lit::JSXText(x.clone()),
        }
    }
}

impl BigIntValue {
    /// `self` and `other` are the same tree: equal leaves, and lists of
    /// the same length whose items are the same trees, in order.
    pub open spec fn same_as(self, other: Self) -> bool
        decreases self,
    {
        &&& self.negative == other.negative
        &&& self.digits@ == other.digits@
    }

    /// Every tree is the same as itself.
    pub proof fn lemma_same_as_reflexive(&self)
        ensures
            self.same_as(*self),
        decreases self,
    {

    }
}

impl Clone for BigIntValue {
    fn clone(&self) -> (r: Self)
        ensures
            self.same_as(r),
        decreases self,
    {
        let mut digits: Vec<u32> = Vec::new();
        let mut i: usize = 0;
        while i < self.digits.len()
            invariant
                i <= self.digits@.len(),
                digits@.len() == i,
                forall|j: int| #![trigger digits@[j]] 0 <= j < i ==> digits@[j] == self.digits@[j],
            decreases self.digits@.len() - i,
        {
            digits.push(self.digits[i]);
            i += 1;
        }
        proof {
            assert(digits@ =~= self.digits@);
        }
        BigIntValue { negative: self.negative, digits }
    }
}

impl BigInt {
    /// `self` and `other` are the same tree: equal leaves, and lists of
    /// the same length whose items are the same trees, in order.
    pub open spec fn same_as(self, other: Self) -> bool
        decreases self,
    {
        &&& self.span == other.span
        &&& (*self.value).same_as((*other.value))
        &&& self.raw == other.raw
    }

    /// Every tree is the same as itself.
    pub proof fn lemma_same_as_reflexive(&self)
        ensures
            self.same_as(*self),
        decreases self,
    {
        self.value.lemma_same_as_reflexive();
    }
}

impl Clone for BigInt {
    fn clone(&self) -> (r: Self)
        ensures
            self.same_as(r),
        decreases self,
    {
        let raw = match &self.raw {
            None => None,
            Some(x) => Some(x.clone()),
        };
        BigInt { span: self.span, value: Box::new((*self.value).clone()), raw }
    }
}

impl Clone for Str {
    fn clone(&self) -> (r: Self)
        ensures
            r == *self,
        decreases self,
    {
        let raw = match &self.raw {
            None => None,
            Some(x) => Some(x.clone()),
        };
        Str { span: self.span, value: self.value.clone(), raw }
    }
}

impl Clone for Regex {
    fn clone(&self) -> (r: Self)
        ensures
            r == *self,
        decreases self,
    {
        Regex { span: self.span, exp: self.exp.clone(), flags: self.flags.clone() }
    }
}

impl Clone for Number {
    fn clone(&self) -> (r: Self)
        ensures
            r == *self,
        decreases self,
    {
        let raw = match &self.raw {
            None => None,
            Some(x) => Some(x.clone()),
        };
        Number { span: self.span, value_bits: self.value_bits, raw }
    }
}

impl Clone for JSXText {
    fn clone(&self) -> (r: Self)
        ensures
            r == *self,
        decreases self,
    {
        JSXText { span: self.span, value: self.value.clone(), raw: self.raw.clone() }
    }
}
} // verus!
