use vstd::prelude::*;

use crate::ast::class::Decorator;
use crate::ast::common::Span;
use crate::ast::pat::Pat;
use crate::ast::stmt::Stmt;
use crate::ast::typescript::TsParamProp;
use crate::ast::typescript::TsThisParam;
use crate::ast::typescript::TsTypeAnn;
use crate::ast::typescript::TsTypeParamDecl;

verus! {

#[derive(Debug, PartialEq, Eq)]
pub struct Function {
    pub this_param: Option<Box<TsThisParam>>,
    pub params: Vec<Param>,
    pub decorators: Vec<Decorator>,
    pub span: Span,
    pub ctxt: u32,
    pub body: Option<FunctionBody>,
    pub is_generator: bool,
    pub is_async: bool,
    pub type_params: Option<Box<TsTypeParamDecl>>,
    pub return_type: Option<Box<TsTypeAnn>>,
}

#[derive(Debug, PartialEq, Eq)]
pub struct FunctionBody {
    pub span: Span,
    pub stmts: Vec<Stmt>,
}

#[derive(Debug, PartialEq, Eq)]
pub struct Param {
    pub span: Span,
    pub decorators: Vec<Decorator>,
    pub pat: Pat,
}

#[derive(Debug, PartialEq, Eq)]
pub enum ParamOrTsParamProp {
    TsParamProp(TsParamProp),
    Param(Param),
}


impl Function {
    /// `self` and `other` are the same tree: equal leaves, and lists of
    /// the same length whose items are the same trees, in order.
    pub open spec fn same_as(self, other: Self) -> bool
        decreases self,
    {
        &&& (match self.this_param { None => other.this_param is None, Some(x0) => other.this_param is Some && (*x0).same_as((*other.this_param->Some_0)) })
        &&& (self.params@.len() == other.params@.len() && forall|i0: int| #![trigger self.params@[i0]] 0 <= i0 < self.params@.len() ==> self.params@[i0].same_as(other.params@[i0]))
        &&& (self.decorators@.len() == other.decorators@.len() && forall|i0: int| #![trigger self.decorators@[i0]] 0 <= i0 < self.decorators@.len() ==> self.decorators@[i0].same_as(other.decorators@[i0]))
        &&& self.span == other.span
        &&& self.ctxt == other.ctxt
        &&& (match self.body { None => other.body is None, Some(x0) => other.body is Some && x0.same_as(other.body->Some_0) })
        &&& self.is_generator == other.is_generator
        &&& self.is_async == other.is_async
        &&& (match self.type_params { None => other.type_params is None, Some(x0) => other.type_params is Some && (*x0).same_as((*other.type_params->Some_0)) })
        &&& (match self.return_type { None => other.return_type is None, Some(x0) => other.return_type is Some && (*x0).same_as((*other.return_type->Some_0)) })
    }

    /// Every tree is the same as itself.
    pub proof fn lemma_same_as_reflexive(&self)
        ensures
            self.same_as(*self),
        decreases self,
    {
        if let Some(x0) = &self.this_param {
            x0.lemma_same_as_reflexive();
        }
        assert forall|i0: int| #![trigger self.params@[i0]] 0 <= i0 < self.params@.len() implies self.params@[i0].same_as(self.params@[i0]) by {
            assert(decreases_to!(self => self.params));
            assert(decreases_to!(self.params => self.params@));
            assert(decreases_to!(self.params@ => self.params@[i0]));
            self.params@[i0].lemma_same_as_reflexive();
        }
        assert forall|i0: int| #![trigger self.decorators@[i0]] 0 <= i0 < self.decorators@.len() implies self.decorators@[i0].same_as(self.decorators@[i0]) by {
            assert(decreases_to!(self => self.decorators));
            assert(decreases_to!(self.decorators => self.decorators@));
            assert(decreases_to!(self.decorators@ => self.decorators@[i0]));
            self.decorators@[i0].lemma_same_as_reflexive();
        }
        if let Some(x0) = &self.body {
            x0.lemma_same_as_reflexive();
        }
        if let Some(x0) = &self.type_params {
            x0.lemma_same_as_reflexive();
        }
        if let Some(x0) = &self.return_type {
            x0.lemma_same_as_reflexive();
        }
    }
}

impl Clone for Function {
    fn clone(&self) -> (r: Self)
        ensures
            self.same_as(r),
        decreases self,
    {
        let this_param = match &self.this_param {
            None => None,
            Some(x) => Some(Box::new((**x).clone())),
        };
        let mut params: Vec<Param> = Vec::new();
        let mut i: usize = 0;
        while i < self.params.len()
            invariant
                i <= self.params@.len(),
                params@.len() == i,
                forall|j: int| #![trigger params@[j]] 0 <= j < i ==> self.params@[j].same_as(params@[j]),
            decreases self.params@.len() - i,
        {
            proof {
                assert(decreases_to!(self => self.params));
                assert(decreases_to!(self.params => self.params@));
                assert(decreases_to!(self.params@ => self.params@[i as int]));
            }
            params.push(self.params[i].clone());
            i += 1;
        }
        let mut decorators: Vec<Decorator> = Vec::new();
        let mut i: usize = 0;
        while i < self.decorators.len()
            invariant
                i <= self.decorators@.len(),
                decorators@.len() == i,
                forall|j: int| #![trigger decorators@[j]] 0 <= j < i ==> self.decorators@[j].same_as(decorators@[j]),
            decreases self.decorators@.len() - i,
        {
            proof {
                assert(decreases_to!(self => self.decorators));
                assert(decreases_to!(self.decorators => self.decorators@));
                assert(decreases_to!(self.decorators@ => self.decorators@[i as int]));
            }
            decorators.push(self.decorators[i].clone());
            i += 1;
        }
        let body = match &self.body {
            None => None,
            Some(x) => Some(x.clone()),
        };
        let type_params = match &self.type_params {
            None => None,
            Some(x) => Some(Box::new((**x).clone())),
        };
        let return_type = match &self.return_type {
            None => None,
            Some(x) => Some(Box::new((**x).clone())),
        };
        Function {
            this_param,
            params,
            decorators,
            span: self.span,
            ctxt: self.ctxt,
            body,
            is_generator: self.is_generator,
            is_async: self.is_async,
            type_params,
            return_type,
        }
    }
}

impl FunctionBody {
    /// `self` and `other` are the same tree: equal leaves, and lists of
    /// the same length whose items are the same trees, in order.
    pub open spec fn same_as(self, other: Self) -> bool
        decreases self,
    {
        &&& self.span == other.span
        &&& (self.stmts@.len() == other.stmts@.len() && forall|i0: int| #![trigger self.stmts@[i0]] 0 <= i0 < self.stmts@.len() ==> self.stmts@[i0].same_as(other.stmts@[i0]))
    }

    /// Every tree is the same as itself.
    pub proof fn lemma_same_as_reflexive(&self)
        ensures
            self.same_as(*self),
        decreases self,
    {
        assert forall|i0: int| #![trigger self.stmts@[i0]] 0 <= i0 < self.stmts@.len() implies self.stmts@[i0].same_as(self.stmts@[i0]) by {
            assert(decreases_to!(self => self.stmts));
            assert(decreases_to!(self.stmts => self.stmts@));
            assert(decreases_to!(self.stmts@ => self.stmts@[i0]));
            self.stmts@[i0].lemma_same_as_reflexive();
        }
    }
}

impl Clone for FunctionBody {
    fn clone(&self) -> (r: Self)
        ensures
            self.same_as(r),
        decreases self,
    {
        let mut stmts: Vec<Stmt> = Vec::new();
        let mut i: usize = 0;
        while i < self.stmts.len()
            invariant
                i <= self.stmts@.len(),
                stmts@.len() == i,
                forall|j: int| #![trigger stmts@[j]] 0 <= j < i ==> self.stmts@[j].same_as(stmts@[j]),
            decreases self.stmts@.len() - i,
        {
            proof {
                assert(decreases_to!(self => self.stmts));
                assert(decreases_to!(self.stmts => self.stmts@));
                assert(decreases_to!(self.stmts@ => self.stmts@[i as int]));
            }
            stmts.push(self.stmts[i].clone());
            i += 1;
        }
        FunctionBody { span: self.span, stmts }
    }
}

impl Param {
    /// `self` and `other` are the same tree: equal leaves, and lists of
    /// the same length whose items are the same trees, in order.
    pub open spec fn same_as(self, other: Self) -> bool
        decreases self,
    {
        &&& self.span == other.span
        &&& (self.decorators@.len() == other.decorators@.len() && forall|i0: int| #![trigger self.decorators@[i0]] 0 <= i0 < self.decorators@.len() ==> self.decorators@[i0].same_as(other.decorators@[i0]))
        &&& self.pat.same_as(other.pat)
    }

    /// Every tree is the same as itself.
    pub proof fn lemma_same_as_reflexive(&self)
        ensures
            self.same_as(*self),
        decreases self,
    {
        assert forall|i0: int| #![trigger self.decorators@[i0]] 0 <= i0 < self.decorators@.len() implies self.decorators@[i0].same_as(self.decorators@[i0]) by {
            assert(decreases_to!(self => self.decorators));
            assert(decreases_to!(self.decorators => self.decorators@));
            assert(decreases_to!(self.decorators@ => self.decorators@[i0]));
            self.decorators@[i0].lemma_same_as_reflexive();
        }
        self.pat.lemma_same_as_reflexive();
    }
}

impl Clone for Param {
    fn clone(&self) -> (r: Self)
        ensures
            self.same_as(r),
        decreases self,
    {
        let mut decorators: Vec<Decorator> = Vec::new();
        let mut i: usize = 0;
        while i < self.decorators.len()
            invariant
                i <= self.decorators@.len(),
                decorators@.len() == i,
                forall|j: int| #![trigger decorators@[j]] 0 <= j < i ==> self.decorators@[j].same_as(decorators@[j]),
            decreases self.decorators@.len() - i,
        {
            proof {
                assert(decreases_to!(self => self.decorators));
                assert(decreases_to!(self.decorators => self.decorators@));
                assert(decreases_to!(self.decorators@ => self.decorators@[i as int]));
            }
            decorators.push(self.decorators[i].clone());
            i += 1;
        }
        Param { span: self.span, decorators, pat: self.pat.clone() }
    }
}

impl ParamOrTsParamProp {
    /// `self` and `other` are the same tree: equal leaves, and lists of
    /// the same length whose items are the same trees, in order.
    pub open spec fn same_as(self, other: Self) -> bool
        decreases self,
    {
        match self {
            ParamOrTsParamProp::TsParamProp(x) => other is TsParamProp && x.same_as(other->TsParamProp_0),
            ParamOrTsParamProp::Param(x) => other is Param && x.same_as(other->Param_0),
        }
    }

    /// Every tree is the same as itself.
    pub proof fn lemma_same_as_reflexive(&self)
        ensures
            self.same_as(*self),
        decreases self,
    {
        match self {
            ParamOrTsParamProp::TsParamProp(x) => {
                x.lemma_same_as_reflexive();
            },
            ParamOrTsParamProp::Param(x) => {
                x.lemma_same_as_reflexive();
            },
        }
    }
}

impl Clone for ParamOrTsParamProp {
    fn clone(&self) -> (r: Self)
        ensures
            self.same_as(r),
        decreases self,
    {
        match self {
            ParamOrTsParamProp::TsParamProp(x) => ParamOrTsParamProp::TsParamProp(x.clone()),
            ParamOrTsParamProp::Param(x) => ParamOrTsParamProp::Param(x.clone()),
        }
    }
}
} // verus!
