use vstd::prelude::*;

use crate::ast::common::Ident;
use crate::ast::common::IdentName;
use crate::ast::common::Span;
use crate::ast::expr::Expr;
use crate::ast::function::Function;
use crate::ast::lit::BigInt;
use crate::ast::lit::Number;
use crate::ast::lit::Str;

verus! {

#[derive(Debug, PartialEq, Eq)]
pub enum Prop {
    Shorthand(Ident),
    KeyValue(KeyValueProp),
    Assign(AssignProp),
    Getter(GetterProp),
    Setter(SetterProp),
    Method(MethodProp),
}

#[derive(Debug, PartialEq, Eq)]
pub struct KeyValueProp {
    pub key: PropName,
    pub value: Box<Expr>,
}

#[derive(Debug, PartialEq, Eq)]
pub struct AssignProp {
    pub span: Span,
    pub key: Ident,
    pub value: Box<Expr>,
}

#[derive(Debug, PartialEq, Eq)]
pub struct GetterProp {
    pub span: Span,
    pub key: PropName,
    pub function: Box<Function>,
}

#[derive(Debug, PartialEq, Eq)]
pub struct SetterProp {
    pub span: Span,
    pub key: PropName,
    pub function: Box<Function>,
}

#[derive(Debug, PartialEq, Eq)]
pub struct MethodProp {
    pub key: PropName,
    pub function: Box<Function>,
}

#[derive(Debug, PartialEq, Eq)]
pub enum PropName {
    Ident(IdentName),
    Str(Str),
    Num(Number),
    Computed(ComputedPropName),
    BigInt(BigInt),
}

#[derive(Debug, PartialEq, Eq)]
pub struct ComputedPropName {
    pub span: Span,
    pub expr: Box<Expr>,
}


impl Prop {
    /// `self` and `other` are the same tree: equal leaves, and lists of
    /// the same length whose items are the same trees, in order.
    pub open spec fn same_as(self, other: Self) -> bool
        decreases self,
    {
        match self {
            Prop::Shorthand(x) => other is Shorthand && x == other->Shorthand_0,
            Prop::KeyValue(x) => other is KeyValue && x.same_as(other->KeyValue_0),
            Prop::Assign(x) => other is Assign && x.same_as(other->Assign_0),
            Prop::Getter(x) => other is Getter && x.same_as(other->Getter_0),
            Prop::Setter(x) => other is Setter && x.same_as(other->Setter_0),
            Prop::Method(x) => other is Method && x.same_as(other->Method_0),
        }
    }

    /// Every tree is the same as itself.
    pub proof fn lemma_same_as_reflexive(&self)
        ensures
            self.same_as(*self),
        decreases self,
    {
        match self {
            Prop::Shorthand(x) => {
            },
            Prop::KeyValue(x) => {
                x.lemma_same_as_reflexive();
            },
            Prop::Assign(x) => {
                x.lemma_same_as_reflexive();
            },
            Prop::Getter(x) => {
                x.lemma_same_as_reflexive();
            },
            Prop::Setter(x) => {
                x.lemma_same_as_reflexive();
            },
            Prop::Method(x) => {
                x.lemma_same_as_reflexive();
            },
        }
    }
}

impl Clone for Prop {
    fn clone(&self) -> (r: Self)
        ensures
            self.same_as(r),
        decreases self,
    {
        match self {
            Prop::Shorthand(x) => Prop::Shorthand(x.clone()),
            Prop::KeyValue(x) => Prop::KeyValue(x.clone()),
            Prop::Assign(x) => Prop::Assign(x.clone()),
            Prop::Getter(x) => Prop::Getter(x.clone()),
            Prop::Setter(x) => Prop::Setter(x.clone()),
            Prop::Method(x) => Prop::Method(x.clone()),
        }
    }
}

impl KeyValueProp {
    /// `self` and `other` are the same tree: equal leaves, and lists of
    /// the same length whose items are the same trees, in order.
    pub open spec fn same_as(self, other: Self) -> bool
        decreases self,
    {
        &&& self.key.same_as(other.key)
        &&& (*self.value).same_as((*other.value))
    }

    /// Every tree is the same as itself.
    pub proof fn lemma_same_as_reflexive(&self)
        ensures
            self.same_as(*self),
        decreases self,
    {
        self.key.lemma_same_as_reflexive();
        self.value.lemma_same_as_reflexive();
    }
}

impl Clone for KeyValueProp {
    fn clone(&self) -> (r: Self)
        ensures
            self.same_as(r),
        decreases self,
    {
        KeyValueProp { key: self.key.clone(), value: Box::new((*self.value).clone()) }
    }
}

impl AssignProp {
    /// `self` and `other` are the same tree: equal leaves, and lists of
    /// the same length whose items are the same trees, in order.
    pub open spec fn same_as(self, other: Self) -> bool
        decreases self,
    {
        &&& self.span == other.span
        &&& self.key == other.key
        &&& (*self.value).same_as((*other.value))
    }

    /// Every tree is the same as itself.
    pub proof fn lemma_same_as_reflexive(&self)
        ensures
            self.same_as(*self),
        decreases self,
    {
        self.value.lemma_same_as_reflexive();
    }
}

impl Clone for AssignProp {
    fn clone(&self) -> (r: Self)
        ensures
            self.same_as(r),
        decreases self,
    {
        AssignProp {
            span: self.span,
            key: self.key.clone(),
            value: Box::new((*self.value).clone()),
        }
    }
}

impl GetterProp {
    /// `self` and `other` are the same tree: equal leaves, and lists of
    /// the same length whose items are the same trees, in order.
    pub open spec fn same_as(self, other: Self) -> bool
        decreases self,
    {
        &&& self.span == other.span
        &&& self.key.same_as(other.key)
        &&& (*self.function).same_as((*other.function))
    }

    /// Every tree is the same as itself.
    pub proof fn lemma_same_as_reflexive(&self)
        ensures
            self.same_as(*self),
        decreases self,
    {
        self.key.lemma_same_as_reflexive();
        self.function.lemma_same_as_reflexive();
    }
}

impl Clone for GetterProp {
    fn clone(&self) -> (r: Self)
        ensures
            self.same_as(r),
        decreases self,
    {
        GetterProp {
            span: self.span,
            key: self.key.clone(),
            function: Box::new((*self.function).clone()),
        }
    }
}

impl SetterProp {
    /// `self` and `other` are the same tree: equal leaves, and lists of
    /// the same length whose items are the same trees, in order.
    pub open spec fn same_as(self, other: Self) -> bool
        decreases self,
    {
        &&& self.span == other.span
        &&& self.key.same_as(other.key)
        &&& (*self.function).same_as((*other.function))
    }

    /// Every tree is the same as itself.
    pub proof fn lemma_same_as_reflexive(&self)
        ensures
            self.same_as(*self),
        decreases self,
    {
        self.key.lemma_same_as_reflexive();
        self.function.lemma_same_as_reflexive();
    }
}

impl Clone for SetterProp {
    fn clone(&self) -> (r: Self)
        ensures
            self.same_as(r),
        decreases self,
    {
        SetterProp {
            span: self.span,
            key: self.key.clone(),
            function: Box::new((*self.function).clone()),
        }
    }
}

impl MethodProp {
    /// `self` and `other` are the same tree: equal leaves, and lists of
    /// the same length whose items are the same trees, in order.
    pub open spec fn same_as(self, other: Self) -> bool
        decreases self,
    {
        &&& self.key.same_as(other.key)
        &&& (*self.function).same_as((*other.function))
    }

    /// Every tree is the same as itself.
    pub proof fn lemma_same_as_reflexive(&self)
        ensures
            self.same_as(*self),
        decreases self,
    {
        self.key.lemma_same_as_reflexive();
        self.function.lemma_same_as_reflexive();
    }
}

impl Clone for MethodProp {
    fn clone(&self) -> (r: Self)
        ensures
            self.same_as(r),
        decreases self,
    {
        MethodProp { key: self.key.clone(), function: Box::new((*self.function).clone()) }
    }
}

impl PropName {
    /// `self` and `other` are the same tree: equal leaves, and lists of
    /// the same length whose items are the same trees, in order.
    pub open spec fn same_as(self, other: Self) -> bool
        decreases self,
    {
        match self {
            PropName::Ident(x) => other is Ident && x == other->Ident_0,
            PropName::Str(x) => other is Str && x == other->Str_0,
            PropName::Num(x) => other is Num && x == other->Num_0,
            PropName::Computed(x) => other is Computed && x.same_as(other->Computed_0),
            PropName::BigInt(x) => other is BigInt && x.same_as(other->BigInt_0),
        }
    }

    /// Every tree is the same as itself.
    pub proof fn lemma_same_as_reflexive(&self)
        ensures
            self.same_as(*self),
        decreases self,
    {
        match self {
            PropName::Ident(x) => {
            },
            PropName::Str(x) => {
            },
            PropName::Num(x) => {
            },
            PropName::Computed(x) => {
                x.lemma_same_as_reflexive();
            },
            PropName::BigInt(x) => {
                x.lemma_same_as_reflexive();
            },
        }
    }
}

impl Clone for PropName {
    fn clone(&self) -> (r: Self)
        ensures
            self.same_as(r),
        decreases self,
    {
        match self {
            PropName::Ident(x) => PropName::Ident(x.clone()),
            PropName::Str(x) => PropName::Str(x.clone()),
            PropName::Num(x) => PropName::Num(x.clone()),
            PropName::Computed(x) => PropName::Computed(x.clone()),
            PropName::BigInt(x) => PropName::BigInt(x.clone()),
        }
    }
}

impl ComputedPropName {
    /// `self` and `other` are the same tree: equal leaves, and lists of
    /// the same length whose items are the same trees, in order.
    pub open spec fn same_as(self, other: Self) -> bool
        decreases self,
    {
        &&& self.span == other.span
        &&& (*self.expr).same_as((*other.expr))
    }

    /// Every tree is the same as itself.
    pub proof fn lemma_same_as_reflexive(&self)
        ensures
            self.same_as(*self),
        decreases self,
    {
        self.expr.lemma_same_as_reflexive();
    }
}

impl Clone for ComputedPropName {
    fn clone(&self) -> (r: Self)
        ensures
            self.same_as(r),
        decreases self,
    {
        ComputedPropName { span: self.span, expr: Box::new((*self.expr).clone()) }
    }
}
} // verus!
