use vstd::prelude::*;

use crate::ast::typescript::TsTypeAnn;

verus! {

/// A range of byte positions in the source text.
#[derive(Clone, Copy, Debug, PartialEq, Eq)]
pub struct Span {
    pub lo: u32,
    pub hi: u32,
}

/// A node that the parser could not make sense of.
#[derive(Clone, Copy, Debug, PartialEq, Eq)]
pub struct Invalid {
    pub span: Span,
}

/// An identifier together with its hygiene context.
#[derive(Debug, PartialEq, Eq)]
pub struct Ident {
    pub span: Span,
    pub ctxt: u32,
    pub sym: String,
    pub optional: bool,
}

/// A name that is not a binding (property names, labels of JSX attributes).
#[derive(Debug, PartialEq, Eq)]
pub struct IdentName {
    pub span: Span,
    pub sym: String,
}

/// `#name`, a private class member name.
#[derive(Debug, PartialEq, Eq)]
pub struct PrivateName {
    pub span: Span,
    pub name: String,
}

/// An identifier in binding position, with its optional type annotation.
#[derive(Debug, PartialEq, Eq)]
pub struct BindingIdent {
    pub id: Ident,
    pub type_ann: Option<Box<TsTypeAnn>>,
}



impl Clone for Ident {
    fn clone(&self) -> (r: Self)
        ensures
            r == *self,
        decreases self,
    {
        Ident { span: self.span, ctxt: self.ctxt, sym: self.sym.clone(), optional: self.optional }
    }
}

impl Clone for IdentName {
    fn clone(&self) -> (r: Self)
        ensures
            r == *self,
        decreases self,
    {
        IdentName { span: self.span, sym: self.sym.clone() }
    }
}

impl Clone for PrivateName {
    fn clone(&self) -> (r: Self)
        ensures
            r == *self,
        decreases self,
    {
        PrivateName { span: self.span, name: self.name.clone() }
    }
}

impl BindingIdent {
    /// `self` and `other` are the same tree: equal leaves, and lists of
    /// the same length whose items are the same trees, in order.
    pub open spec fn same_as(self, other: Self) -> bool
        decreases self,
    {
        &&& self.id == other.id
        &&& (match self.type_ann { None => other.type_ann is None, Some(x0) => other.type_ann is Some && (*x0).same_as((*other.type_ann->Some_0)) })
    }

    /// Every tree is the same as itself.
    pub proof fn lemma_same_as_reflexive(&self)
        ensures
            self.same_as(*self),
        decreases self,
    {
        if let Some(x0) = &self.type_ann {
            x0.lemma_same_as_reflexive();
        }
    }
}

impl Clone for BindingIdent {
    fn clone(&self) -> (r: Self)
        ensures
            self.same_as(r),
        decreases self,
    {
        let type_ann = match &self.type_ann {
            None => None,
            Some(x) => Some(Box::new((**x).clone())),
        };
        BindingIdent { id: self.id.clone(), type_ann }
    }
}
} // verus!
