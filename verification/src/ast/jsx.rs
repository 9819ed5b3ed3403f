use vstd::prelude::*;

use crate::ast::common::Ident;
use crate::ast::common::IdentName;
use crate::ast::common::Span;
use crate::ast::expr::Expr;
use crate::ast::expr::SpreadElement;
use crate::ast::lit::JSXText;
use crate::ast::lit::Str;
use crate::ast::typescript::TsTypeParamInstantiation;

verus! {

#[derive(Debug, PartialEq, Eq)]
pub enum JSXObject {
    JSXMemberExpr(Box<JSXMemberExpr>),
    Ident(Ident),
}

#[derive(Debug, PartialEq, Eq)]
pub struct JSXMemberExpr {
    pub span: Span,
    pub obj: JSXObject,
    pub prop: IdentName,
}

#[derive(Debug, PartialEq, Eq)]
pub struct JSXNamespacedName {
    pub span: Span,
    pub ns: IdentName,
    pub name: IdentName,
}

#[derive(Debug, PartialEq, Eq)]
pub struct JSXEmptyExpr {
    pub span: Span,
}

#[derive(Debug, PartialEq, Eq)]
pub struct JSXExprContainer {
    pub span: Span,
    pub expr: JSXExpr,
}

#[derive(Debug, PartialEq, Eq)]
pub enum JSXExpr {
    JSXEmptyExpr(JSXEmptyExpr),
    Expr(Box<Expr>),
}

#[derive(Debug, PartialEq, Eq)]
pub struct JSXSpreadChild {
    pub span: Span,
    pub expr: Box<Expr>,
}

#[derive(Debug, PartialEq, Eq)]
pub enum JSXElementName {
    Ident(Ident),
    JSXMemberExpr(JSXMemberExpr),
    JSXNamespacedName(JSXNamespacedName),
}

#[derive(Debug, PartialEq, Eq)]
pub struct JSXOpeningElement {
    pub name: JSXElementName,
    pub span: Span,
    pub attrs: Vec<JSXAttrOrSpread>,
    pub self_closing: bool,
    pub type_args: Option<Box<TsTypeParamInstantiation>>,
}

#[derive(Debug, PartialEq, Eq)]
pub enum JSXAttrOrSpread {
    JSXAttr(JSXAttr),
    SpreadElement(SpreadElement),
}

#[derive(Debug, PartialEq, Eq)]
pub struct JSXClosingElement {
    pub span: Span,
    pub name: JSXElementName,
}

#[derive(Debug, PartialEq, Eq)]
pub struct JSXAttr {
    pub span: Span,
    pub name: JSXAttrName,
    pub value: Option<JSXAttrValue>,
}

#[derive(Debug, PartialEq, Eq)]
pub enum JSXAttrName {
    Ident(IdentName),
    JSXNamespacedName(JSXNamespacedName),
}

#[derive(Debug, PartialEq, Eq)]
pub enum JSXAttrValue {
    Str(Str),
    JSXExprContainer(JSXExprContainer),
    JSXElement(Box<JSXElement>),
    JSXFragment(JSXFragment),
}

#[derive(Debug, PartialEq, Eq)]
pub struct JSXElement {
    pub span: Span,
    pub opening: JSXOpeningElement,
    pub children: Vec<JSXElementChild>,
    pub closing: Option<JSXClosingElement>,
}

#[derive(Debug, PartialEq, Eq)]
pub enum JSXElementChild {
    JSXText(JSXText),
    JSXExprContainer(JSXExprContainer),
    JSXSpreadChild(JSXSpreadChild),
    JSXElement(Box<JSXElement>),
    JSXFragment(JSXFragment),
}

#[derive(Debug, PartialEq, Eq)]
pub struct JSXFragment {
    pub span: Span,
    pub opening: JSXOpeningFragment,
    pub children: Vec<JSXElementChild>,
    pub closing: JSXClosingFragment,
}

#[derive(Debug, PartialEq, Eq)]
pub struct JSXOpeningFragment {
    pub span: Span,
}

#[derive(Debug, PartialEq, Eq)]
pub struct JSXClosingFragment {
    pub span: Span,
}


impl Clone for JSXObject {
    fn clone(&self) -> (r: Self)
        ensures
            r == *self,
        decreases self,
    {
        match self {
            JSXObject::JSXMemberExpr(x) => JSXObject::JSXMemberExpr(Box::new((**x).clone())),
            JSXObject::Ident(x) => JSXObject::Ident(x.clone()),
        }
    }
}

impl Clone for JSXMemberExpr {
    fn clone(&self) -> (r: Self)
        ensures
            r == *self,
        decreases self,
    {
        JSXMemberExpr { span: self.span, obj: self.obj.clone(), prop: self.prop.clone() }
    }
}

impl Clone for JSXNamespacedName {
    fn clone(&self) -> (r: Self)
        ensures
            r == *self,
        decreases self,
    {
        JSXNamespacedName { span: self.span, ns: self.ns.clone(), name: self.name.clone() }
    }
}

impl Clone for JSXEmptyExpr {
    fn clone(&self) -> (r: Self)
        ensures
            r == *self,
        decreases self,
    {
        JSXEmptyExpr { span: self.span }
    }
}

impl JSXExprContainer {
    /// `self` and `other` are the same tree: equal leaves, and lists of
    /// the same length whose items are the same trees, in order.
    pub open spec fn same_as(self, other: Self) -> bool
        decreases self,
    {
        &&& self.span == other.span
        &&& self.expr.same_as(other.expr)
    }

    /// Every tree is the same as itself.
    pub proof fn lemma_same_as_reflexive(&self)
        ensures
            self.same_as(*self),
        decreases self,
    {
        self.expr.lemma_same_as_reflexive();
    }
}

impl Clone for JSXExprContainer {
    fn clone(&self) -> (r: Self)
        ensures
            self.same_as(r),
        decreases self,
    {
        JSXExprContainer { span: self.span, expr: self.expr.clone() }
    }
}

impl JSXExpr {
    /// `self` and `other` are the same tree: equal leaves, and lists of
    /// the same length whose items are the same trees, in order.
    pub open spec fn same_as(self, other: Self) -> bool
        decreases self,
    {
        match self {
            JSXExpr::JSXEmptyExpr(x) => other is JSXEmptyExpr && x == other->JSXEmptyExpr_0,
            JSXExpr::Expr(x) => other is Expr && (*x).same_as((*other->Expr_0)),
        }
    }

    /// Every tree is the same as itself.
    pub proof fn lemma_same_as_reflexive(&self)
        ensures
            self.same_as(*self),
        decreases self,
    {
        match self {
            JSXExpr::JSXEmptyExpr(x) => {
            },
            JSXExpr::Expr(x) => {
                x.lemma_same_as_reflexive();
            },
        }
    }
}

impl Clone for JSXExpr {
    fn clone(&self) -> (r: Self)
        ensures
            self.same_as(r),
        decreases self,
    {
        match self {
            JSXExpr::JSXEmptyExpr(x) => JSXExpr::JSXEmptyExpr(x.clone()),
            JSXExpr::Expr(x) => JSXExpr::Expr(Box::new((**x).clone())),
        }
    }
}

impl JSXSpreadChild {
    /// `self` and `other` are the same tree: equal leaves, and lists of
    /// the same length whose items are the same trees, in order.
    pub open spec fn same_as(self, other: Self) -> bool
        decreases self,
    {
        &&& self.span == other.span
        &&& (*self.expr).same_as((*other.expr))
    }

    /// Every tree is the same as itself.
    pub proof fn lemma_same_as_reflexive(&self)
        ensures
            self.same_as(*self),
        decreases self,
    {
        self.expr.lemma_same_as_reflexive();
    }
}

impl Clone for JSXSpreadChild {
    fn clone(&self) -> (r: Self)
        ensures
            self.same_as(r),
        decreases self,
    {
        JSXSpreadChild { span: self.span, expr: Box::new((*self.expr).clone()) }
    }
}

impl Clone for JSXElementName {
    fn clone(&self) -> (r: Self)
        ensures
            r == *self,
        decreases self,
    {
        match self {
            JSXElementName::Ident(x) => JSXElementName::Ident(x.clone()),
            JSXElementName::JSXMemberExpr(x) => JSXElementName::JSXMemberExpr(x.clone()),
            JSXElementName::JSXNamespacedName(x) => JSXElementName::JSXNamespacedName(x.clone()),
        }
    }
}

impl JSXOpeningElement {
    /// `self` and `other` are the same tree: equal leaves, and lists of
    /// the same length whose items are the same trees, in order.
    pub open spec fn same_as(self, other: Self) -> bool
        decreases self,
    {
        &&& self.name == other.name
        &&& self.span == other.span
        &&& (self.attrs@.len() == other.attrs@.len() && forall|i0: int| #![trigger self.attrs@[i0]] 0 <= i0 < self.attrs@.len() ==> self.attrs@[i0].same_as(other.attrs@[i0]))
        &&& self.self_closing == other.self_closing
        &&& (match self.type_args { None => other.type_args is None, Some(x0) => other.type_args is Some && (*x0).same_as((*other.type_args->Some_0)) })
    }

    /// Every tree is the same as itself.
    pub proof fn lemma_same_as_reflexive(&self)
        ensures
            self.same_as(*self),
        decreases self,
    {
        assert forall|i0: int| #![trigger self.attrs@[i0]] 0 <= i0 < self.attrs@.len() implies self.attrs@[i0].same_as(self.attrs@[i0]) by {
            assert(decreases_to!(self => self.attrs));
            assert(decreases_to!(self.attrs => self.attrs@));
            assert(decreases_to!(self.attrs@ => self.attrs@[i0]));
            self.attrs@[i0].lemma_same_as_reflexive();
        }
        if let Some(x0) = &self.type_args {
            x0.lemma_same_as_reflexive();
        }
    }
}

impl Clone for JSXOpeningElement {
    fn clone(&self) -> (r: Self)
        ensures
            self.same_as(r),
        decreases self,
    {
        let mut attrs: Vec<JSXAttrOrSpread> = Vec::new();
        let mut i: usize = 0;
        while i < self.attrs.len()
            invariant
                i <= self.attrs@.len(),
                attrs@.len() == i,
                forall|j: int| #![trigger attrs@[j]] 0 <= j < i ==> self.attrs@[j].same_as(attrs@[j]),
            decreases self.attrs@.len() - i,
        {
            proof {
                assert(decreases_to!(self => self.attrs));
                assert(decreases_to!(self.attrs => self.attrs@));
                assert(decreases_to!(self.attrs@ => self.attrs@[i as int]));
            }
            attrs.push(self.attrs[i].clone());
            i += 1;
        }
        let type_args = match &self.type_args {
            None => None,
            Some(x) => Some(Box::new((**x).clone())),
        };
        JSXOpeningElement {
            name: self.name.clone(),
            span: self.span,
            attrs,
            self_closing: self.self_closing,
            type_args,
        }
    }
}

impl JSXAttrOrSpread {
    /// `self` and `other` are the same tree: equal leaves, and lists of
    /// the same length whose items are the same trees, in order.
    pub open spec fn same_as(self, other: Self) -> bool
        decreases self,
    {
        match self {
            JSXAttrOrSpread::JSXAttr(x) => other is JSXAttr && x.same_as(other->JSXAttr_0),
            JSXAttrOrSpread::SpreadElement(x) => other is SpreadElement && x.same_as(other->SpreadElement_0),
        }
    }

    /// Every tree is the same as itself.
    pub proof fn lemma_same_as_reflexive(&self)
        ensures
            self.same_as(*self),
        decreases self,
    {
        match self {
            JSXAttrOrSpread::JSXAttr(x) => {
                x.lemma_same_as_reflexive();
            },
            JSXAttrOrSpread::SpreadElement(x) => {
                x.lemma_same_as_reflexive();
            },
        }
    }
}

impl Clone for JSXAttrOrSpread {
    fn clone(&self) -> (r: Self)
        ensures
            self.same_as(r),
        decreases self,
    {
        match self {
            JSXAttrOrSpread::JSXAttr(x) => JSXAttrOrSpread::JSXAttr(x.clone()),
            JSXAttrOrSpread::SpreadElement(x) => JSXAttrOrSpread::SpreadElement(x.clone()),
        }
    }
}

impl Clone for JSXClosingElement {
    fn clone(&self) -> (r: Self)
        ensures
            r == *self,
        decreases self,
    {
        JSXClosingElement { span: self.span, name: self.name.clone() }
    }
}

impl JSXAttr {
    /// `self` and `other` are the same tree: equal leaves, and lists of
    /// the same length whose items are the same trees, in order.
    pub open spec fn same_as(self, other: Self) -> bool
        decreases self,
    {
        &&& self.span == other.span
        &&& self.name == other.name
        &&& (match self.value { None => other.value is None, Some(x0) => other.value is Some && x0.same_as(other.value->Some_0) })
    }

    /// Every tree is the same as itself.
    pub proof fn lemma_same_as_reflexive(&self)
        ensures
            self.same_as(*self),
        decreases self,
    {
        if let Some(x0) = &self.value {
            x0.lemma_same_as_reflexive();
        }
    }
}

impl Clone for JSXAttr {
    fn clone(&self) -> (r: Self)
        ensures
            self.same_as(r),
        decreases self,
    {
        let value = match &self.value {
            None => None,
            Some(x) => Some(x.clone()),
        };
        JSXAttr { span: self.span, name: self.name.clone(), value }
    }
}

impl Clone for JSXAttrName {
    fn clone(&self) -> (r: Self)
        ensures
            r == *self,
        decreases self,
    {
        match self {
            JSXAttrName::Ident(x) => JSXAttrName::Ident(x.clone()),
            JSXAttrName::JSXNamespacedName(x) => JSXAttrName::JSXNamespacedName(x.clone()),
        }
    }
}

impl JSXAttrValue {
    /// `self` and `other` are the same tree: equal leaves, and lists of
    /// the same length whose items are the same trees, in order.
    pub open spec fn same_as(self, other: Self) -> bool
        decreases self,
    {
        match self {
            JSXAttrValue::Str(x) => other is Str && x == other->Str_0,
            JSXAttrValue::JSXExprContainer(x) => other is JSXExprContainer && x.same_as(other->JSXExprContainer_0),
            JSXAttrValue::JSXElement(x) => other is JSXElement && (*x).same_as((*other->JSXElement_0)),
            JSXAttrValue::JSXFragment(x) => other is JSXFragment && x.same_as(other->JSXFragment_0),
        }
    }

    /// Every tree is the same as itself.
    pub proof fn lemma_same_as_reflexive(&self)
        ensures
            self.same_as(*self),
        decreases self,
    {
        match self {
            JSXAttrValue::Str(x) => {
            },
            JSXAttrValue::JSXExprContainer(x) => {
                x.lemma_same_as_reflexive();
            },
            JSXAttrValue::JSXElement(x) => {
                x.lemma_same_as_reflexive();
            },
            JSXAttrValue::JSXFragment(x) => {
                x.lemma_same_as_reflexive();
            },
        }
    }
}

impl Clone for JSXAttrValue {
    fn clone(&self) -> (r: Self)
        ensures
            self.same_as(r),
        decreases self,
    {
        match self {
            JSXAttrValue::Str(x) => JSXAttrValue::Str(x.clone()),
            JSXAttrValue::JSXExprContainer(x) => JSXAttrValue::JSXExprContainer(x.clone()),
            JSXAttrValue::JSXElement(x) => JSXAttrValue::JSXElement(Box::new((**x).clone())),
            JSXAttrValue::JSXFragment(x) => JSXAttrValue::JSXFragment(x.clone()),
        }
    }
}

impl JSXElement {
    /// `self` and `other` are the same tree: equal leaves, and lists of
    /// the same length whose items are the same trees, in order.
    pub open spec fn same_as(self, other: Self) -> bool
        decreases self,
    {
        &&& self.span == other.span
        &&& self.opening.same_as(other.opening)
        &&& (self.children@.len() == other.children@.len() && forall|i0: int| #![trigger self.children@[i0]] 0 <= i0 < self.children@.len() ==> self.children@[i0].same_as(other.children@[i0]))
        &&& self.closing == other.closing
    }

    /// Every tree is the same as itself.
    pub proof fn lemma_same_as_reflexive(&self)
        ensures
            self.same_as(*self),
        decreases self,
    {
        self.opening.lemma_same_as_reflexive();
        assert forall|i0: int| #![trigger self.children@[i0]] 0 <= i0 < self.children@.len() implies self.children@[i0].same_as(self.children@[i0]) by {
            assert(decreases_to!(self => self.children));
            assert(decreases_to!(self.children => self.children@));
            assert(decreases_to!(self.children@ => self.children@[i0]));
            self.children@[i0].lemma_same_as_reflexive();
        }
    }
}

impl Clone for JSXElement {
    fn clone(&self) -> (r: Self)
        ensures
            self.same_as(r),
        decreases self,
    {
        let mut children: Vec<JSXElementChild> = Vec::new();
        let mut i: usize = 0;
        while i < self.children.len()
            invariant
                i <= self.children@.len(),
                children@.len() == i,
                forall|j: int| #![trigger children@[j]] 0 <= j < i ==> self.children@[j].same_as(children@[j]),
            decreases self.children@.len() - i,
        {
            proof {
                assert(decreases_to!(self => self.children));
                assert(decreases_to!(self.children => self.children@));
                assert(decreases_to!(self.children@ => self.children@[i as int]));
            }
            children.push(self.children[i].clone());
            i += 1;
        }
        let closing = match &self.closing {
            None => None,
            Some(x) => Some(x.clone()),
        };
        JSXElement { span: self.span, opening: self.opening.clone(), children, closing }
    }
}

impl JSXElementChild {
    /// `self` and `other` are the same tree: equal leaves, and lists of
    /// the same length whose items are the same trees, in order.
    pub open spec fn same_as(self, other: Self) -> bool
        decreases self,
    {
        match self {
            JSXElementChild::JSXText(x) => other is JSXText && x == other->JSXText_0,
            JSXElementChild::JSXExprContainer(x) => other is JSXExprContainer && x.same_as(other->JSXExprContainer_0),
            JSXElementChild::JSXSpreadChild(x) => other is JSXSpreadChild && x.same_as(other->JSXSpreadChild_0),
            JSXElementChild::JSXElement(x) => other is JSXElement && (*x).same_as((*other->JSXElement_0)),
            JSXElementChild::JSXFragment(x) => other is JSXFragment && x.same_as(other->JSXFragment_0),
        }
    }

    /// Every tree is the same as itself.
    pub proof fn lemma_same_as_reflexive(&self)
        ensures
            self.same_as(*self),
        decreases self,
    {
        match self {
            JSXElementChild::JSXText(x) => {
            },
            JSXElementChild::JSXExprContainer(x) => {
                x.lemma_same_as_reflexive();
            },
            JSXElementChild::JSXSpreadChild(x) => {
                x.lemma_same_as_reflexive();
            },
            JSXElementChild::JSXElement(x) => {
                x.lemma_same_as_reflexive();
            },
            JSXElementChild::JSXFragment(x) => {
                x.lemma_same_as_reflexive();
            },
        }
    }
}

impl Clone for JSXElementChild {
    fn clone(&self) -> (r: Self)
        ensures
            self.same_as(r),
        decreases self,
    {
        match self {
            JSXElementChild::JSXText(x) => JSXElementChild::JSXText(x.clone()),
            JSXElementChild::JSXExprContainer(x) => JSXElementChild::JSXExprContainer(x.clone()),
            JSXElementChild::JSXSpreadChild(x) => JSXElementChild::JSXSpreadChild(x.clone()),
            JSXElementChild::JSXElement(x) => JSXElementChild::JSXElement(Box::new((**x).clone())),
            JSXElementChild::JSXFragment(x) => JSXElementChild::JSXFragment(x.clone()),
        }
    }
}

impl JSXFragment {
    /// `self` and `other` are the same tree: equal leaves, and lists of
    /// the same length whose items are the same trees, in order.
    pub open spec fn same_as(self, other: Self) -> bool
        decreases self,
    {
        &&& self.span == other.span
        &&& self.opening == other.opening
        &&& (self.children@.len() == other.children@.len() && forall|i0: int| #![trigger self.children@[i0]] 0 <= i0 < self.children@.len() ==> self.children@[i0].same_as(other.children@[i0]))
        &&& self.closing == other.closing
    }

    /// Every tree is the same as itself.
    pub proof fn lemma_same_as_reflexive(&self)
        ensures
            self.same_as(*self),
        decreases self,
    {
        assert forall|i0: int| #![trigger self.children@[i0]] 0 <= i0 < self.children@.len() implies self.children@[i0].same_as(self.children@[i0]) by {
            assert(decreases_to!(self => self.children));
            assert(decreases_to!(self.children => self.children@));
            assert(decreases_to!(self.children@ => self.children@[i0]));
            self.children@[i0].lemma_same_as_reflexive();
        }
    }
}

impl Clone for JSXFragment {
    fn clone(&self) -> (r: Self)
        ensures
            self.same_as(r),
        decreases self,
    {
        let mut children: Vec<JSXElementChild> = Vec::new();
        let mut i: usize = 0;
        while i < self.children.len()
            invariant
                i <= self.children@.len(),
                children@.len() == i,
                forall|j: int| #![trigger children@[j]] 0 <= j < i ==> self.children@[j].same_as(children@[j]),
            decreases self.children@.len() - i,
        {
            proof {
                assert(decreases_to!(self => self.children));
                assert(decreases_to!(self.children => self.children@));
                assert(decreases_to!(self.children@ => self.children@[i as int]));
            }
            children.push(self.children[i].clone());
            i += 1;
        }
        JSXFragment {
            span: self.span,
            opening: self.opening.clone(),
            children,
            closing: self.closing.clone(),
        }
    }
}

impl Clone for JSXOpeningFragment {
    fn clone(&self) -> (r: Self)
        ensures
            r == *self,
        decreases self,
    {
        JSXOpeningFragment { span: self.span }
    }
}

impl Clone for JSXClosingFragment {
    fn clone(&self) -> (r: Self)
        ensures
            r == *self,
        decreases self,
    {
        JSXClosingFragment { span: self.span }
    }
}
} // verus!
