use vstd::prelude::*;

use crate::ast::common::BindingIdent;
use crate::ast::common::Ident;
use crate::ast::common::Invalid;
use crate::ast::common::Span;
use crate::ast::expr::Expr;
use crate::ast::prop::PropName;
use crate::ast::typescript::TsTypeAnn;

verus! {

#[derive(Debug, PartialEq, Eq)]
pub enum Pat {
    Ident(BindingIdent),
    Array(ArrayPat),
    Rest(RestPat),
    Object(ObjectPat),
    Assign(AssignPat),
    Invalid(Invalid),
    Expr(Box<Expr>),
}

#[derive(Debug, PartialEq, Eq)]
pub struct ArrayPat {
    pub span: Span,
    pub elems: Vec<Option<Pat>>,
    pub optional: bool,
    pub type_ann: Option<Box<TsTypeAnn>>,
}

#[derive(Debug, PartialEq, Eq)]
pub struct ObjectPat {
    pub span: Span,
    pub props: Vec<ObjectPatProp>,
    pub optional: bool,
    pub type_ann: Option<Box<TsTypeAnn>>,
}

#[derive(Debug, PartialEq, Eq)]
pub struct AssignPat {
    pub span: Span,
    pub left: Box<Pat>,
    pub right: Box<Expr>,
}

#[derive(Debug, PartialEq, Eq)]
pub struct RestPat {
    pub span: Span,
    pub dot3_token: Span,
    pub arg: Box<Pat>,
    pub type_ann: Option<Box<TsTypeAnn>>,
}

#[derive(Debug, PartialEq, Eq)]
pub enum ObjectPatProp {
    KeyValue(KeyValuePatProp),
    Assign(AssignPatProp),
    Rest(RestPat),
}

#[derive(Debug, PartialEq, Eq)]
pub struct KeyValuePatProp {
    pub key: PropName,
    pub value: Box<Pat>,
}

#[derive(Debug, PartialEq, Eq)]
pub struct AssignPatProp {
    pub span: Span,
    pub key: BindingIdent,
    pub value: Option<Box<Expr>>,
}


impl Pat {
    /// `self` and `other` are the same tree: equal leaves, and lists of
    /// the same length whose items are the same trees, in order.
    pub open spec fn same_as(self, other: Self) -> bool
        decreases self,
    {
        match self {
            Pat::Ident(x) => other is Ident && x.same_as(other->Ident_0),
            Pat::Array(x) => other is Array && x.same_as(other->Array_0),
            Pat::Rest(x) => other is Rest && x.same_as(other->Rest_0),
            Pat::Object(x) => other is Object && x.same_as(other->Object_0),
            Pat::Assign(x) => other is Assign && x.same_as(other->Assign_0),
            Pat::Invalid(x) => other is Invalid && x == other->Invalid_0,
            Pat::Expr(x) => other is Expr && (*x).same_as((*other->Expr_0)),
        }
    }

    /// Every tree is the same as itself.
    pub proof fn lemma_same_as_reflexive(&self)
        ensures
            self.same_as(*self),
        decreases self,
    {
        match self {
            Pat::Ident(x) => {
                x.lemma_same_as_reflexive();
            },
            Pat::Array(x) => {
                x.lemma_same_as_reflexive();
            },
            Pat::Rest(x) => {
                x.lemma_same_as_reflexive();
            },
            Pat::Object(x) => {
                x.lemma_same_as_reflexive();
            },
            Pat::Assign(x) => {
                x.lemma_same_as_reflexive();
            },
            Pat::Invalid(x) => {
            },
            Pat::Expr(x) => {
                x.lemma_same_as_reflexive();
            },
        }
    }
}

impl Clone for Pat {
    fn clone(&self) -> (r: Self)
        ensures
            self.same_as(r),
        decreases self,
    {
        match self {
            Pat::Ident(x) => Pat::Ident(x.clone()),
            Pat::Array(x) => Pat::Array(x.clone()),
            Pat::Rest(x) => Pat::Rest(x.clone()),
            Pat::Object(x) => Pat::Object(x.clone()),
            Pat::Assign(x) => Pat::Assign(x.clone()),
            Pat::Invalid(x) => Pat::Invalid(*x),
            Pat::Expr(x) => Pat::Expr(Box::new((**x).clone())),
        }
    }
}

impl ArrayPat {
    /// `self` and `other` are the same tree: equal leaves, and lists of
    /// the same length whose items are the same trees, in order.
    pub open spec fn same_as(self, other: Self) -> bool
        decreases self,
    {
        &&& self.span == other.span
        &&& (self.elems@.len() == other.elems@.len() && forall|i0: int| #![trigger self.elems@[i0]] 0 <= i0 < self.elems@.len() ==> (match self.elems@[i0] { None => other.elems@[i0] is None, Some(x1) => other.elems@[i0] is Some && x1.same_as(other.elems@[i0]->Some_0) }))
        &&& self.optional == other.optional
        &&& (match self.type_ann { None => other.type_ann is None, Some(x0) => other.type_ann is Some && (*x0).same_as((*other.type_ann->Some_0)) })
    }

    /// Every tree is the same as itself.
    pub proof fn lemma_same_as_reflexive(&self)
        ensures
            self.same_as(*self),
        decreases self,
    {
        assert forall|i0: int| #![trigger self.elems@[i0]] 0 <= i0 < self.elems@.len() implies (match self.elems@[i0] { None => self.elems@[i0] is None, Some(x1) => self.elems@[i0] is Some && x1.same_as(self.elems@[i0]->Some_0) }) by {
            assert(decreases_to!(self => self.elems));
            assert(decreases_to!(self.elems => self.elems@));
            assert(decreases_to!(self.elems@ => self.elems@[i0]));
            if let Some(x1) = &self.elems@[i0] {
                x1.lemma_same_as_reflexive();
            }
        }
        if let Some(x0) = &self.type_ann {
            x0.lemma_same_as_reflexive();
        }
    }
}

impl Clone for ArrayPat {
    fn clone(&self) -> (r: Self)
        ensures
            self.same_as(r),
        decreases self,
    {
        let mut elems: Vec<Option<Pat>> = Vec::new();
        let mut i: usize = 0;
        while i < self.elems.len()
            invariant
                i <= self.elems@.len(),
                elems@.len() == i,
                forall|j: int| #![trigger elems@[j]] 0 <= j < i ==> (match self.elems@[j] { None => elems@[j] is None, Some(x0) => elems@[j] is Some && x0.same_as(elems@[j]->Some_0) }),
            decreases self.elems@.len() - i,
        {
            proof {
                assert(decreases_to!(self => self.elems));
                assert(decreases_to!(self.elems => self.elems@));
                assert(decreases_to!(self.elems@ => self.elems@[i as int]));
            }
            elems.push(match &self.elems[i] { None => None, Some(x) => Some(x.clone()) });
            i += 1;
        }
        let type_ann = match &self.type_ann {
            None => None,
            Some(x) => Some(Box::new((**x).clone())),
        };
        ArrayPat { span: self.span, elems, optional: self.optional, type_ann }
    }
}

impl ObjectPat {
    /// `self` and `other` are the same tree: equal leaves, and lists of
    /// the same length whose items are the same trees, in order.
    pub open spec fn same_as(self, other: Self) -> bool
        decreases self,
    {
        &&& self.span == other.span
        &&& (self.props@.len() == other.props@.len() && forall|i0: int| #![trigger self.props@[i0]] 0 <= i0 < self.props@.len() ==> self.props@[i0].same_as(other.props@[i0]))
        &&& self.optional == other.optional
        &&& (match self.type_ann { None => other.type_ann is None, Some(x0) => other.type_ann is Some && (*x0).same_as((*other.type_ann->Some_0)) })
    }

    /// Every tree is the same as itself.
    pub proof fn lemma_same_as_reflexive(&self)
        ensures
            self.same_as(*self),
        decreases self,
    {
        assert forall|i0: int| #![trigger self.props@[i0]] 0 <= i0 < self.props@.len() implies self.props@[i0].same_as(self.props@[i0]) by {
            assert(decreases_to!(self => self.props));
            assert(decreases_to!(self.props => self.props@));
            assert(decreases_to!(self.props@ => self.props@[i0]));
            self.props@[i0].lemma_same_as_reflexive();
        }
        if let Some(x0) = &self.type_ann {
            x0.lemma_same_as_reflexive();
        }
    }
}

impl Clone for ObjectPat {
    fn clone(&self) -> (r: Self)
        ensures
            self.same_as(r),
        decreases self,
    {
        let mut props: Vec<ObjectPatProp> = Vec::new();
        let mut i: usize = 0;
        while i < self.props.len()
            invariant
                i <= self.props@.len(),
                props@.len() == i,
                forall|j: int| #![trigger props@[j]] 0 <= j < i ==> self.props@[j].same_as(props@[j]),
            decreases self.props@.len() - i,
        {
            proof {
                assert(decreases_to!(self => self.props));
                assert(decreases_to!(self.props => self.props@));
                assert(decreases_to!(self.props@ => self.props@[i as int]));
            }
            props.push(self.props[i].clone());
            i += 1;
        }
        let type_ann = match &self.type_ann {
            None => None,
            Some(x) => Some(Box::new((**x).clone())),
        };
        ObjectPat { span: self.span, props, optional: self.optional, type_ann }
    }
}

impl AssignPat {
    /// `self` and `other` are the same tree: equal leaves, and lists of
    /// the same length whose items are the same trees, in order.
    pub open spec fn same_as(self, other: Self) -> bool
        decreases self,
    {
        &&& self.span == other.span
        &&& (*self.left).same_as((*other.left))
        &&& (*self.right).same_as((*other.right))
    }

    /// Every tree is the same as itself.
    pub proof fn lemma_same_as_reflexive(&self)
        ensures
            self.same_as(*self),
        decreases self,
    {
        self.left.lemma_same_as_reflexive();
        self.right.lemma_same_as_reflexive();
    }
}

impl Clone for AssignPat {
    fn clone(&self) -> (r: Self)
        ensures
            self.same_as(r),
        decreases self,
    {
        AssignPat {
            span: self.span,
            left: Box::new((*self.left).clone()),
            right: Box::new((*self.right).clone()),
        }
    }
}

impl RestPat {
    /// `self` and `other` are the same tree: equal leaves, and lists of
    /// the same length whose items are the same trees, in order.
    pub open spec fn same_as(self, other: Self) -> bool
        decreases self,
    {
        &&& self.span == other.span
        &&& self.dot3_token == other.dot3_token
        &&& (*self.arg).same_as((*other.arg))
        &&& (match self.type_ann { None => other.type_ann is None, Some(x0) => other.type_ann is Some && (*x0).same_as((*other.type_ann->Some_0)) })
    }

    /// Every tree is the same as itself.
    pub proof fn lemma_same_as_reflexive(&self)
        ensures
            self.same_as(*self),
        decreases self,
    {
        self.arg.lemma_same_as_reflexive();
        if let Some(x0) = &self.type_ann {
            x0.lemma_same_as_reflexive();
        }
    }
}

impl Clone for RestPat {
    fn clone(&self) -> (r: Self)
        ensures
            self.same_as(r),
        decreases self,
    {
        let type_ann = match &self.type_ann {
            None => None,
            Some(x) => Some(Box::new((**x).clone())),
        };
        RestPat {
            span: self.span,
            dot3_token: self.dot3_token,
            arg: Box::new((*self.arg).clone()),
            type_ann,
        }
    }
}

impl ObjectPatProp {
    /// `self` and `other` are the same tree: equal leaves, and lists of
    /// the same length whose items are the same trees, in order.
    pub open spec fn same_as(self, other: Self) -> bool
        decreases self,
    {
        match self {
            ObjectPatProp::KeyValue(x) => other is KeyValue && x.same_as(other->KeyValue_0),
            ObjectPatProp::Assign(x) => other is Assign && x.same_as(other->Assign_0),
            ObjectPatProp::Rest(x) => other is Rest && x.same_as(other->Rest_0),
        }
    }

    /// Every tree is the same as itself.
    pub proof fn lemma_same_as_reflexive(&self)
        ensures
            self.same_as(*self),
        decreases self,
    {
        match self {
            ObjectPatProp::KeyValue(x) => {
                x.lemma_same_as_reflexive();
            },
            ObjectPatProp::Assign(x) => {
                x.lemma_same_as_reflexive();
            },
            ObjectPatProp::Rest(x) => {
                x.lemma_same_as_reflexive();
            },
        }
    }
}

impl Clone for ObjectPatProp {
    fn clone(&self) -> (r: Self)
        ensures
            self.same_as(r),
        decreases self,
    {
        match self {
            ObjectPatProp::KeyValue(x) => ObjectPatProp::KeyValue(x.clone()),
            ObjectPatProp::Assign(x) => ObjectPatProp::Assign(x.clone()),
            ObjectPatProp::Rest(x) => ObjectPatProp::Rest(x.clone()),
        }
    }
}

impl KeyValuePatProp {
    /// `self` and `other` are the same tree: equal leaves, and lists of
    /// the same length whose items are the same trees, in order.
    pub open spec fn same_as(self, other: Self) -> bool
        decreases self,
    {
        &&& self.key.same_as(other.key)
        &&& (*self.value).same_as((*other.value))
    }

    /// Every tree is the same as itself.
    pub proof fn lemma_same_as_reflexive(&self)
        ensures
            self.same_as(*self),
        decreases self,
    {
        self.key.lemma_same_as_reflexive();
        self.value.lemma_same_as_reflexive();
    }
}

impl Clone for KeyValuePatProp {
    fn clone(&self) -> (r: Self)
        ensures
            self.same_as(r),
        decreases self,
    {
        KeyValuePatProp { key: self.key.clone(), value: Box::new((*self.value).clone()) }
    }
}

impl AssignPatProp {
    /// `self` and `other` are the same tree: equal leaves, and lists of
    /// the same length whose items are the same trees, in order.
    pub open spec fn same_as(self, other: Self) -> bool
        decreases self,
    {
        &&& self.span == other.span
        &&& self.key.same_as(other.key)
        &&& (match self.value { None => other.value is None, Some(x0) => other.value is Some && (*x0).same_as((*other.value->Some_0)) })
    }

    /// Every tree is the same as itself.
    pub proof fn lemma_same_as_reflexive(&self)
        ensures
            self.same_as(*self),
        decreases self,
    {
        self.key.lemma_same_as_reflexive();
        if let Some(x0) = &self.value {
            x0.lemma_same_as_reflexive();
        }
    }
}

impl Clone for AssignPatProp {
    fn clone(&self) -> (r: Self)
        ensures
            self.same_as(r),
        decreases self,
    {
        let value = match &self.value {
            None => None,
            Some(x) => Some(Box::new((**x).clone())),
        };
        AssignPatProp { span: self.span, key: self.key.clone(), value }
    }
}
} // verus!
