use vstd::prelude::*;

use crate::ast::class::Class;
use crate::ast::common::BindingIdent;
use crate::ast::common::Ident;
use crate::ast::common::IdentName;
use crate::ast::common::Invalid;
use crate::ast::common::PrivateName;
use crate::ast::common::Span;
use crate::enums::AssignOp;
use crate::enums::BinaryOp;
use crate::enums::ImportPhase;
use crate::enums::MetaPropKind;
use crate::enums::UnaryOp;
use crate::enums::UpdateOp;
use crate::ast::function::Function;
use crate::ast::function::FunctionBody;
use crate::ast::jsx::JSXElement;
use crate::ast::jsx::JSXEmptyExpr;
use crate::ast::jsx::JSXFragment;
use crate::ast::jsx::JSXMemberExpr;
use crate::ast::jsx::JSXNamespacedName;
use crate::ast::lit::Lit;
use crate::ast::pat::ArrayPat;
use crate::ast::pat::ObjectPat;
use crate::ast::pat::Pat;
use crate::ast::prop::ComputedPropName;
use crate::ast::prop::Prop;
use crate::ast::typescript::TsAsExpr;
use crate::ast::typescript::TsConstAssertion;
use crate::ast::typescript::TsInstantiation;
use crate::ast::typescript::TsNonNullExpr;
use crate::ast::typescript::TsSatisfiesExpr;
use crate::ast::typescript::TsTypeAnn;
use crate::ast::typescript::TsTypeAssertion;
use crate::ast::typescript::TsTypeParamDecl;
use crate::ast::typescript::TsTypeParamInstantiation;

verus! {

#[derive(Debug, PartialEq, Eq)]
pub enum Expr {
    This(ThisExpr),
    Array(ArrayLit),
    Object(ObjectLit),
    Fn(FnExpr),
    Unary(UnaryExpr),
    Update(UpdateExpr),
    Bin(BinExpr),
    Assign(AssignExpr),
    Member(MemberExpr),
    SuperProp(SuperPropExpr),
    Cond(CondExpr),
    Call(CallExpr),
    New(NewExpr),
    Sequence(SeqExpr),
    Ident(Ident),
    Lit(Lit),
    Tpl(Tpl),
    TaggedTpl(TaggedTpl),
    Arrow(ArrowExpr),
    Class(ClassExpr),
    Yield(YieldExpr),
    MetaProp(MetaPropExpr),
    Await(AwaitExpr),
    Paren(ParenExpr),
    JSXMember(JSXMemberExpr),
    JSXNamespacedName(JSXNamespacedName),
    JSXEmpty(JSXEmptyExpr),
    JSXElement(Box<JSXElement>),
    JSXFragment(JSXFragment),
    TsTypeAssertion(TsTypeAssertion),
    TsConstAssertion(TsConstAssertion),
    TsNonNull(TsNonNullExpr),
    TsAs(TsAsExpr),
    TsInstantiation(TsInstantiation),
    TsSatisfies(TsSatisfiesExpr),
    PrivateName(PrivateName),
    OptChain(OptChainExpr),
    Invalid(Invalid),
}

#[derive(Debug, PartialEq, Eq)]
pub struct ThisExpr {
    pub span: Span,
}

#[derive(Debug, PartialEq, Eq)]
pub struct ArrayLit {
    pub span: Span,
    pub elems: Vec<Option<ExprOrSpread>>,
}

#[derive(Debug, PartialEq, Eq)]
pub struct ObjectLit {
    pub span: Span,
    pub props: Vec<PropOrSpread>,
}

#[derive(Debug, PartialEq, Eq)]
pub enum PropOrSpread {
    Spread(SpreadElement),
    Prop(Box<Prop>),
}

#[derive(Debug, PartialEq, Eq)]
pub struct SpreadElement {
    pub dot3_token: Span,
    pub expr: Box<Expr>,
}

#[derive(Debug, PartialEq, Eq)]
pub struct UnaryExpr {
    pub span: Span,
    pub op: UnaryOp,
    pub arg: Box<Expr>,
}

#[derive(Debug, PartialEq, Eq)]
pub struct UpdateExpr {
    pub span: Span,
    pub op: UpdateOp,
    pub prefix: bool,
    pub arg: Box<Expr>,
}

#[derive(Debug, PartialEq, Eq)]
pub struct BinExpr {
    pub span: Span,
    pub op: BinaryOp,
    pub left: Box<Expr>,
    pub right: Box<Expr>,
}

#[derive(Debug, PartialEq, Eq)]
pub struct FnExpr {
    pub ident: Option<Ident>,
    pub function: Box<Function>,
}

#[derive(Debug, PartialEq, Eq)]
pub struct ClassExpr {
    pub ident: Option<Ident>,
    pub class: Box<Class>,
}

#[derive(Debug, PartialEq, Eq)]
pub struct AssignExpr {
    pub span: Span,
    pub op: AssignOp,
    pub left: AssignTarget,
    pub right: Box<Expr>,
}

#[derive(Debug, PartialEq, Eq)]
pub struct MemberExpr {
    pub span: Span,
    pub obj: Box<Expr>,
    pub prop: MemberProp,
}

#[derive(Debug, PartialEq, Eq)]
pub enum MemberProp {
    Ident(IdentName),
    PrivateName(PrivateName),
    Computed(ComputedPropName),
}

#[derive(Debug, PartialEq, Eq)]
pub struct SuperPropExpr {
    pub span: Span,
    pub obj: Super,
    pub prop: SuperProp,
}

#[derive(Debug, PartialEq, Eq)]
pub enum SuperProp {
    Ident(IdentName),
    Computed(ComputedPropName),
}

#[derive(Debug, PartialEq, Eq)]
pub struct CondExpr {
    pub span: Span,
    pub test: Box<Expr>,
    pub cons: Box<Expr>,
    pub alt: Box<Expr>,
}

#[derive(Debug, PartialEq, Eq)]
pub struct CallExpr {
    pub span: Span,
    pub ctxt: u32,
    pub callee: Callee,
    pub args: Vec<ExprOrSpread>,
    pub type_args: Option<Box<TsTypeParamInstantiation>>,
}

#[derive(Debug, PartialEq, Eq)]
pub struct NewExpr {
    pub span: Span,
    pub ctxt: u32,
    pub callee: Box<Expr>,
    pub args: Option<Vec<ExprOrSpread>>,
    pub type_args: Option<Box<TsTypeParamInstantiation>>,
}

#[derive(Debug, PartialEq, Eq)]
pub struct SeqExpr {
    pub span: Span,
    pub exprs: Vec<Box<Expr>>,
}

#[derive(Debug, PartialEq, Eq)]
pub struct ArrowExpr {
    pub span: Span,
    pub ctxt: u32,
    pub params: Vec<Pat>,
    pub body: Box<ArrowFunctionBody>,
    pub is_async: bool,
    pub is_generator: bool,
    pub type_params: Option<Box<TsTypeParamDecl>>,
    pub return_type: Option<Box<TsTypeAnn>>,
}

#[derive(Debug, PartialEq, Eq)]
pub struct YieldExpr {
    pub span: Span,
    pub arg: Option<Box<Expr>>,
    pub delegate: bool,
}

#[derive(Debug, PartialEq, Eq)]
pub struct MetaPropExpr {
    pub span: Span,
    pub kind: MetaPropKind,
}

#[derive(Debug, PartialEq, Eq)]
pub struct AwaitExpr {
    pub span: Span,
    pub arg: Box<Expr>,
}

#[derive(Debug, PartialEq, Eq)]
pub struct Tpl {
    pub span: Span,
    pub exprs: Vec<Box<Expr>>,
    pub quasis: Vec<TplElement>,
}

#[derive(Debug, PartialEq, Eq)]
pub struct TaggedTpl {
    pub span: Span,
    pub ctxt: u32,
    pub tag: Box<Expr>,
    pub type_params: Option<Box<TsTypeParamInstantiation>>,
    pub tpl: Box<Tpl>,
}

#[derive(Debug, PartialEq, Eq)]
pub struct TplElement {
    pub span: Span,
    pub tail: bool,
    pub cooked: Option<String>,
    pub raw: String,
}

#[derive(Debug, PartialEq, Eq)]
pub struct ParenExpr {
    pub span: Span,
    pub expr: Box<Expr>,
}

#[derive(Debug, PartialEq, Eq)]
pub enum Callee {
    Super(Super),
    Import(Import),
    Expr(Box<Expr>),
}

#[derive(Debug, PartialEq, Eq)]
pub struct Super {
    pub span: Span,
}

#[derive(Debug, PartialEq, Eq)]
pub struct Import {
    pub span: Span,
    pub phase: ImportPhase,
}

#[derive(Debug, PartialEq, Eq)]
pub struct ExprOrSpread {
    pub spread: Option<Span>,
    pub expr: Box<Expr>,
}

#[derive(Debug, PartialEq, Eq)]
pub enum ArrowFunctionBody {
    FunctionBody(FunctionBody),
    Expr(Box<Expr>),
}

#[derive(Debug, PartialEq, Eq)]
pub enum AssignTarget {
    Simple(SimpleAssignTarget),
    Pat(AssignTargetPat),
}

#[derive(Debug, PartialEq, Eq)]
pub enum AssignTargetPat {
    Array(ArrayPat),
    Object(ObjectPat),
    Invalid(Invalid),
}

#[derive(Debug, PartialEq, Eq)]
pub enum SimpleAssignTarget {
    Ident(BindingIdent),
    Member(MemberExpr),
    SuperProp(SuperPropExpr),
    Paren(ParenExpr),
    OptChain(OptChainExpr),
    TsAs(TsAsExpr),
    TsSatisfies(TsSatisfiesExpr),
    TsNonNull(TsNonNullExpr),
    TsTypeAssertion(TsTypeAssertion),
    TsInstantiation(TsInstantiation),
    Invalid(Invalid),
}

#[derive(Debug, PartialEq, Eq)]
pub struct OptChainExpr {
    pub span: Span,
    pub optional: bool,
    pub base: Box<OptChainBase>,
}

#[derive(Debug, PartialEq, Eq)]
pub enum OptChainBase {
    Member(MemberExpr),
    Call(OptCall),
}

#[derive(Debug, PartialEq, Eq)]
pub struct OptCall {
    pub span: Span,
    pub ctxt: u32,
    pub callee: Box<Expr>,
    pub args: Vec<ExprOrSpread>,
    pub type_args: Option<Box<TsTypeParamInstantiation>>,
}


impl Expr {
    /// `self` and `other` are the same tree: equal leaves, and lists of
    /// the same length whose items are the same trees, in order.
    pub open spec fn same_as(self, other: Self) -> bool
        decreases self,
    {
        match self {
            Expr::This(x) => other is This && x == other->This_0,
            Expr::Array(x) => other is Array && x.same_as(other->Array_0),
            Expr::Object(x) => other is Object && x.same_as(other->Object_0),
            Expr::Fn(x) => other is Fn && x.same_as(other->Fn_0),
            Expr::Unary(x) => other is Unary && x.same_as(other->Unary_0),
            Expr::Update(x) => other is Update && x.same_as(other->Update_0),
            Expr::Bin(x) => other is Bin && x.same_as(other->Bin_0),
            Expr::Assign(x) => other is Assign && x.same_as(other->Assign_0),
            Expr::Member(x) => other is Member && x.same_as(other->Member_0),
            Expr::SuperProp(x) => other is SuperProp && x.same_as(other->SuperProp_0),
            Expr::Cond(x) => other is Cond && x.same_as(other->Cond_0),
            Expr::Call(x) => other is Call && x.same_as(other->Call_0),
            Expr::New(x) => other is New && x.same_as(other->New_0),
            Expr::Sequence(x) => other is Sequence && x.same_as(other->Sequence_0),
            Expr::Ident(x) => other is Ident && x == other->Ident_0,
            Expr::Lit(x) => other is Lit && x.same_as(other->Lit_0),
            Expr::Tpl(x) => other is Tpl && x.same_as(other->Tpl_0),
            Expr::TaggedTpl(x) => other is TaggedTpl && x.same_as(other->TaggedTpl_0),
            Expr::Arrow(x) => other is Arrow && x.same_as(other->Arrow_0),
            Expr::Class(x) => other is Class && x.same_as(other->Class_0),
            Expr::Yield(x) => other is Yield && x.same_as(other->Yield_0),
            Expr::MetaProp(x) => other is MetaProp && x == other->MetaProp_0,
            Expr::Await(x) => other is Await && x.same_as(other->Await_0),
            Expr::Paren(x) => other is Paren && x.same_as(other->Paren_0),
            Expr::JSXMember(x) => other is JSXMember && x == other->JSXMember_0,
            Expr::JSXNamespacedName(x) => other is JSXNamespacedName && x == other->JSXNamespacedName_0,
            Expr::JSXEmpty(x) => other is JSXEmpty && x == other->JSXEmpty_0,
            Expr::JSXElement(x) => other is JSXElement && (*x).same_as((*other->JSXElement_0)),
            Expr::JSXFragment(x) => other is JSXFragment && x.same_as(other->JSXFragment_0),
            Expr::TsTypeAssertion(x) => other is TsTypeAssertion && x.same_as(other->TsTypeAssertion_0),
            Expr::TsConstAssertion(x) => other is TsConstAssertion && x.same_as(other->TsConstAssertion_0),
            Expr::TsNonNull(x) => other is TsNonNull && x.same_as(other->TsNonNull_0),
            Expr::TsAs(x) => other is TsAs && x.same_as(other->TsAs_0),
            Expr::TsInstantiation(x) => other is TsInstantiation && x.same_as(other->TsInstantiation_0),
            Expr::TsSatisfies(x) => other is TsSatisfies && x.same_as(other->TsSatisfies_0),
            Expr::PrivateName(x) => other is PrivateName && x == other->PrivateName_0,
            Expr::OptChain(x) => other is OptChain && x.same_as(other->OptChain_0),
            Expr::Invalid(x) => other is Invalid && x == other->Invalid_0,
        }
    }

    /// Every tree is the same as itself.
    pub proof fn lemma_same_as_reflexive(&self)
        ensures
            self.same_as(*self),
        decreases self,
    {
        match self {
            Expr::This(x) => {
            },
            Expr::Array(x) => {
                x.lemma_same_as_reflexive();
            },
            Expr::Object(x) => {
                x.lemma_same_as_reflexive();
            },
            Expr::Fn(x) => {
                x.lemma_same_as_reflexive();
            },
            Expr::Unary(x) => {
                x.lemma_same_as_reflexive();
            },
            Expr::Update(x) => {
                x.lemma_same_as_reflexive();
            },
            Expr::Bin(x) => {
                x.lemma_same_as_reflexive();
            },
            Expr::Assign(x) => {
                x.lemma_same_as_reflexive();
            },
            Expr::Member(x) => {
                x.lemma_same_as_reflexive();
            },
            Expr::SuperProp(x) => {
                x.lemma_same_as_reflexive();
            },
            Expr::Cond(x) => {
                x.lemma_same_as_reflexive();
            },
            Expr::Call(x) => {
                x.lemma_same_as_reflexive();
            },
            Expr::New(x) => {
                x.lemma_same_as_reflexive();
            },
            Expr::Sequence(x) => {
                x.lemma_same_as_reflexive();
            },
            Expr::Ident(x) => {
            },
            Expr::Lit(x) => {
                x.lemma_same_as_reflexive();
            },
            Expr::Tpl(x) => {
                x.lemma_same_as_reflexive();
            },
            Expr::TaggedTpl(x) => {
                x.lemma_same_as_reflexive();
            },
            Expr::Arrow(x) => {
                x.lemma_same_as_reflexive();
            },
            Expr::Class(x) => {
                x.lemma_same_as_reflexive();
            },
            Expr::Yield(x) => {
                x.lemma_same_as_reflexive();
            },
            Expr::MetaProp(x) => {
            },
            Expr::Await(x) => {
                x.lemma_same_as_reflexive();
            },
            Expr::Paren(x) => {
                x.lemma_same_as_reflexive();
            },
            Expr::JSXMember(x) => {
            },
            Expr::JSXNamespacedName(x) => {
            },
            Expr::JSXEmpty(x) => {
            },
            Expr::JSXElement(x) => {
                x.lemma_same_as_reflexive();
            },
            Expr::JSXFragment(x) => {
                x.lemma_same_as_reflexive();
            },
            Expr::TsTypeAssertion(x) => {
                x.lemma_same_as_reflexive();
            },
            Expr::TsConstAssertion(x) => {
                x.lemma_same_as_reflexive();
            },
            Expr::TsNonNull(x) => {
                x.lemma_same_as_reflexive();
            },
            Expr::TsAs(x) => {
                x.lemma_same_as_reflexive();
            },
            Expr::TsInstantiation(x) => {
                x.lemma_same_as_reflexive();
            },
            Expr::TsSatisfies(x) => {
                x.lemma_same_as_reflexive();
            },
            Expr::PrivateName(x) => {
            },
            Expr::OptChain(x) => {
                x.lemma_same_as_reflexive();
            },
            Expr::Invalid(x) => {
            },
        }
    }
}

impl Clone for Expr {
    fn clone(&self) -> (r: Self)
        ensures
            self.same_as(r),
        decreases self,
    {
        match self {
            Expr::This(x) => Expr::This(x.clone()),
            Expr::Array(x) => Expr::Array(x.clone()),
            Expr::Object(x) => Expr::Object(x.clone()),
            Expr::Fn(x) => Expr::Fn(x.clone()),
            Expr::Unary(x) => Expr::Unary(x.clone()),
            Expr::Update(x) => Expr::Update(x.clone()),
            Expr::Bin(x) => Expr::Bin(x.clone()),
            Expr::Assign(x) => Expr::Assign(x.clone()),
            Expr::Member(x) => Expr::Member(x.clone()),
            Expr::SuperProp(x) => Expr::SuperProp(x.clone()),
            Expr::Cond(x) => Expr::Cond(x.clone()),
            Expr::Call(x) => Expr::Call(x.clone()),
            Expr::New(x) => Expr::New(x.clone()),
            Expr::Sequence(x) => Expr::Sequence(x.clone()),
            Expr::Ident(x) => Expr::Ident(x.clone()),
            Expr::Lit(x) => Expr::Lit(x.clone()),
            Expr::Tpl(x) => Expr::Tpl(x.clone()),
            Expr::TaggedTpl(x) => Expr::TaggedTpl(x.clone()),
            Expr::Arrow(x) => Expr::Arrow(x.clone()),
            Expr::Class(x) => Expr::Class(x.clone()),
            Expr::Yield(x) => Expr::Yield(x.clone()),
            Expr::MetaProp(x) => Expr::MetaProp(x.clone()),
            Expr::Await(x) => Expr::Await(x.clone()),
            Expr::Paren(x) => Expr::Paren(x.clone()),
            Expr::JSXMember(x) => Expr::JSXMember(x.clone()),
            Expr::JSXNamespacedName(x) => Expr::JSXNamespacedName(x.clone()),
            Expr::JSXEmpty(x) => Expr::JSXEmpty(x.clone()),
            Expr::JSXElement(x) => Expr::JSXElement(Box::new((**x).clone())),
            Expr::JSXFragment(x) => Expr::JSXFragment(x.clone()),
            Expr::TsTypeAssertion(x) => Expr::TsTypeAssertion(x.clone()),
            Expr::TsConstAssertion(x) => Expr::TsConstAssertion(x.clone()),
            Expr::TsNonNull(x) => Expr::TsNonNull(x.clone()),
            Expr::TsAs(x) => Expr::TsAs(x.clone()),
            Expr::TsInstantiation(x) => Expr::TsInstantiation(x.clone()),
            Expr::TsSatisfies(x) => Expr::TsSatisfies(x.clone()),
            Expr::PrivateName(x) => Expr::PrivateName(x.clone()),
            Expr::OptChain(x) => Expr::OptChain(x.clone()),
            Expr::Invalid(x) => Expr::Invalid(*x),
        }
    }
}

impl Clone for ThisExpr {
    fn clone(&self) -> (r: Self)
        ensures
            r == *self,
        decreases self,
    {
        ThisExpr { span: self.span }
    }
}

impl ArrayLit {
    /// `self` and `other` are the same tree: equal leaves, and lists of
    /// the same length whose items are the same trees, in order.
    pub open spec fn same_as(self, other: Self) -> bool
        decreases self,
    {
        &&& self.span == other.span
        &&& (self.elems@.len() == other.elems@.len() && forall|i0: int| #![trigger self.elems@[i0]] 0 <= i0 < self.elems@.len() ==> (match self.elems@[i0] { None => other.elems@[i0] is None, Some(x1) => other.elems@[i0] is Some && x1.same_as(other.elems@[i0]->Some_0) }))
    }

    /// Every tree is the same as itself.
    pub proof fn lemma_same_as_reflexive(&self)
        ensures
            self.same_as(*self),
        decreases self,
    {
        assert forall|i0: int| #![trigger self.elems@[i0]] 0 <= i0 < self.elems@.len() implies (match self.elems@[i0] { None => self.elems@[i0] is None, Some(x1) => self.elems@[i0] is Some && x1.same_as(self.elems@[i0]->Some_0) }) by {
            assert(decreases_to!(self => self.elems));
            assert(decreases_to!(self.elems => self.elems@));
            assert(decreases_to!(self.elems@ => self.elems@[i0]));
            if let Some(x1) = &self.elems@[i0] {
                x1.lemma_same_as_reflexive();
            }
        }
    }
}

impl Clone for ArrayLit {
    fn clone(&self) -> (r: Self)
        ensures
            self.same_as(r),
        decreases self,
    {
        let mut elems: Vec<Option<ExprOrSpread>> = Vec::new();
        let mut i: usize = 0;
        while i < self.elems.len()
            invariant
                i <= self.elems@.len(),
                elems@.len() == i,
                forall|j: int| #![trigger elems@[j]] 0 <= j < i ==> (match self.elems@[j] { None => elems@[j] is None, Some(x0) => elems@[j] is Some && x0.same_as(elems@[j]->Some_0) }),
            decreases self.elems@.len() - i,
        {
            proof {
                assert(decreases_to!(self => self.elems));
                assert(decreases_to!(self.elems => self.elems@));
                assert(decreases_to!(self.elems@ => self.elems@[i as int]));
            }
            elems.push(match &self.elems[i] { None => None, Some(x) => Some(x.clone()) });
            i += 1;
        }
        ArrayLit { span: self.span, elems }
    }
}

impl ObjectLit {
    /// `self` and `other` are the same tree: equal leaves, and lists of
    /// the same length whose items are the same trees, in order.
    pub open spec fn same_as(self, other: Self) -> bool
        decreases self,
    {
        &&& self.span == other.span
        &&& (self.props@.len() == other.props@.len() && forall|i0: int| #![trigger self.props@[i0]] 0 <= i0 < self.props@.len() ==> self.props@[i0].same_as(other.props@[i0]))
    }

    /// Every tree is the same as itself.
    pub proof fn lemma_same_as_reflexive(&self)
        ensures
            self.same_as(*self),
        decreases self,
    {
        assert forall|i0: int| #![trigger self.props@[i0]] 0 <= i0 < self.props@.len() implies self.props@[i0].same_as(self.props@[i0]) by {
            assert(decreases_to!(self => self.props));
            assert(decreases_to!(self.props => self.props@));
            assert(decreases_to!(self.props@ => self.props@[i0]));
            self.props@[i0].lemma_same_as_reflexive();
        }
    }
}

impl Clone for ObjectLit {
    fn clone(&self) -> (r: Self)
        ensures
            self.same_as(r),
        decreases self,
    {
        let mut props: Vec<PropOrSpread> = Vec::new();
        let mut i: usize = 0;
        while i < self.props.len()
            invariant
                i <= self.props@.len(),
                props@.len() == i,
                forall|j: int| #![trigger props@[j]] 0 <= j < i ==> self.props@[j].same_as(props@[j]),
            decreases self.props@.len() - i,
        {
            proof {
                assert(decreases_to!(self => self.props));
                assert(decreases_to!(self.props => self.props@));
                assert(decreases_to!(self.props@ => self.props@[i as int]));
            }
            props.push(self.props[i].clone());
            i += 1;
        }
        ObjectLit { span: self.span, props }
    }
}

impl PropOrSpread {
    /// `self` and `other` are the same tree: equal leaves, and lists of
    /// the same length whose items are the same trees, in order.
    pub open spec fn same_as(self, other: Self) -> bool
        decreases self,
    {
        match self {
            PropOrSpread::Spread(x) => other is Spread && x.same_as(other->Spread_0),
            PropOrSpread::Prop(x) => other is Prop && (*x).same_as((*other->Prop_0)),
        }
    }

    /// Every tree is the same as itself.
    pub proof fn lemma_same_as_reflexive(&self)
        ensures
            self.same_as(*self),
        decreases self,
    {
        match self {
            PropOrSpread::Spread(x) => {
                x.lemma_same_as_reflexive();
            },
            PropOrSpread::Prop(x) => {
                x.lemma_same_as_reflexive();
            },
        }
    }
}

impl Clone for PropOrSpread {
    fn clone(&self) -> (r: Self)
        ensures
            self.same_as(r),
        decreases self,
    {
        match self {
            PropOrSpread::Spread(x) => PropOrSpread::Spread(x.clone()),
            PropOrSpread::Prop(x) => PropOrSpread::Prop(Box::new((**x).clone())),
        }
    }
}

impl SpreadElement {
    /// `self` and `other` are the same tree: equal leaves, and lists of
    /// the same length whose items are the same trees, in order.
    pub open spec fn same_as(self, other: Self) -> bool
        decreases self,
    {
        &&& self.dot3_token == other.dot3_token
        &&& (*self.expr).same_as((*other.expr))
    }

    /// Every tree is the same as itself.
    pub proof fn lemma_same_as_reflexive(&self)
        ensures
            self.same_as(*self),
        decreases self,
    {
        self.expr.lemma_same_as_reflexive();
    }
}

impl Clone for SpreadElement {
    fn clone(&self) -> (r: Self)
        ensures
            self.same_as(r),
        decreases self,
    {
        SpreadElement { dot3_token: self.dot3_token, expr: Box::new((*self.expr).clone()) }
    }
}

impl UnaryExpr {
    /// `self` and `other` are the same tree: equal leaves, and lists of
    /// the same length whose items are the same trees, in order.
    pub open spec fn same_as(self, other: Self) -> bool
        decreases self,
    {
        &&& self.span == other.span
        &&& self.op == other.op
        &&& (*self.arg).same_as((*other.arg))
    }

    /// Every tree is the same as itself.
    pub proof fn lemma_same_as_reflexive(&self)
        ensures
            self.same_as(*self),
        decreases self,
    {
        self.arg.lemma_same_as_reflexive();
    }
}

impl Clone for UnaryExpr {
    fn clone(&self) -> (r: Self)
        ensures
            self.same_as(r),
        decreases self,
    {
        UnaryExpr { span: self.span, op: self.op, arg: Box::new((*self.arg).clone()) }
    }
}

impl UpdateExpr {
    /// `self` and `other` are the same tree: equal leaves, and lists of
    /// the same length whose items are the same trees, in order.
    pub open spec fn same_as(self, other: Self) -> bool
        decreases self,
    {
        &&& self.span == other.span
        &&& self.op == other.op
        &&& self.prefix == other.prefix
        &&& (*self.arg).same_as((*other.arg))
    }

    /// Every tree is the same as itself.
    pub proof fn lemma_same_as_reflexive(&self)
        ensures
            self.same_as(*self),
        decreases self,
    {
        self.arg.lemma_same_as_reflexive();
    }
}

impl Clone for UpdateExpr {
    fn clone(&self) -> (r: Self)
        ensures
            self.same_as(r),
        decreases self,
    {
        UpdateExpr {
            span: self.span,
            op: self.op,
            prefix: self.prefix,
            arg: Box::new((*self.arg).clone()),
        }
    }
}

impl BinExpr {
    /// `self` and `other` are the same tree: equal leaves, and lists of
    /// the same length whose items are the same trees, in order.
    pub open spec fn same_as(self, other: Self) -> bool
        decreases self,
    {
        &&& self.span == other.span
        &&& self.op == other.op
        &&& (*self.left).same_as((*other.left))
        &&& (*self.right).same_as((*other.right))
    }

    /// Every tree is the same as itself.
    pub proof fn lemma_same_as_reflexive(&self)
        ensures
            self.same_as(*self),
        decreases self,
    {
        self.left.lemma_same_as_reflexive();
        self.right.lemma_same_as_reflexive();
    }
}

impl Clone for BinExpr {
    fn clone(&self) -> (r: Self)
        ensures
            self.same_as(r),
        decreases self,
    {
        BinExpr {
            span: self.span,
            op: self.op,
            left: Box::new((*self.left).clone()),
            right: Box::new((*self.right).clone()),
        }
    }
}

impl FnExpr {
    /// `self` and `other` are the same tree: equal leaves, and lists of
    /// the same length whose items are the same trees, in order.
    pub open spec fn same_as(self, other: Self) -> bool
        decreases self,
    {
        &&& self.ident == other.ident
        &&& (*self.function).same_as((*other.function))
    }

    /// Every tree is the same as itself.
    pub proof fn lemma_same_as_reflexive(&self)
        ensures
            self.same_as(*self),
        decreases self,
    {
        self.function.lemma_same_as_reflexive();
    }
}

impl Clone for FnExpr {
    fn clone(&self) -> (r: Self)
        ensures
            self.same_as(r),
        decreases self,
    {
        let ident = match &self.ident {
            None => None,
            Some(x) => Some(x.clone()),
        };
        FnExpr { ident, function: Box::new((*self.function).clone()) }
    }
}

impl ClassExpr {
    /// `self` and `other` are the same tree: equal leaves, and lists of
    /// the same length whose items are the same trees, in order.
    pub open spec fn same_as(self, other: Self) -> bool
        decreases self,
    {
        &&& self.ident == other.ident
        &&& (*self.class).same_as((*other.class))
    }

    /// Every tree is the same as itself.
    pub proof fn lemma_same_as_reflexive(&self)
        ensures
            self.same_as(*self),
        decreases self,
    {
        self.class.lemma_same_as_reflexive();
    }
}

impl Clone for ClassExpr {
    fn clone(&self) -> (r: Self)
        ensures
            self.same_as(r),
        decreases self,
    {
        let ident = match &self.ident {
            None => None,
            Some(x) => Some(x.clone()),
        };
        ClassExpr { ident, class: Box::new((*self.class).clone()) }
    }
}

impl AssignExpr {
    /// `self` and `other` are the same tree: equal leaves, and lists of
    /// the same length whose items are the same trees, in order.
    pub open spec fn same_as(self, other: Self) -> bool
        decreases self,
    {
        &&& self.span == other.span
        &&& self.op == other.op
        &&& self.left.same_as(other.left)
        &&& (*self.right).same_as((*other.right))
    }

    /// Every tree is the same as itself.
    pub proof fn lemma_same_as_reflexive(&self)
        ensures
            self.same_as(*self),
        decreases self,
    {
        self.left.lemma_same_as_reflexive();
        self.right.lemma_same_as_reflexive();
    }
}

impl Clone for AssignExpr {
    fn clone(&self) -> (r: Self)
        ensures
            self.same_as(r),
        decreases self,
    {
        AssignExpr {
            span: self.span,
            op: self.op,
            left: self.left.clone(),
            right: Box::new((*self.right).clone()),
        }
    }
}

impl MemberExpr {
    /// `self` and `other` are the same tree: equal leaves, and lists of
    /// the same length whose items are the same trees, in order.
    pub open spec fn same_as(self, other: Self) -> bool
        decreases self,
    {
        &&& self.span == other.span
        &&& (*self.obj).same_as((*other.obj))
        &&& self.prop.same_as(other.prop)
    }

    /// Every tree is the same as itself.
    pub proof fn lemma_same_as_reflexive(&self)
        ensures
            self.same_as(*self),
        decreases self,
    {
        self.obj.lemma_same_as_reflexive();
        self.prop.lemma_same_as_reflexive();
    }
}

impl Clone for MemberExpr {
    fn clone(&self) -> (r: Self)
        ensures
            self.same_as(r),
        decreases self,
    {
        MemberExpr { span: self.span, obj: Box::new((*self.obj).clone()), prop: self.prop.clone() }
    }
}

impl MemberProp {
    /// `self` and `other` are the same tree: equal leaves, and lists of
    /// the same length whose items are the same trees, in order.
    pub open spec fn same_as(self, other: Self) -> bool
        decreases self,
    {
        match self {
            MemberProp::Ident(x) => other is Ident && x == other->Ident_0,
            MemberProp::PrivateName(x) => other is PrivateName && x == other->PrivateName_0,
            MemberProp::Computed(x) => other is Computed && x.same_as(other->Computed_0),
        }
    }

    /// Every tree is the same as itself.
    pub proof fn lemma_same_as_reflexive(&self)
        ensures
            self.same_as(*self),
        decreases self,
    {
        match self {
            MemberProp::Ident(x) => {
            },
            MemberProp::PrivateName(x) => {
            },
            MemberProp::Computed(x) => {
                x.lemma_same_as_reflexive();
            },
        }
    }
}

impl Clone for MemberProp {
    fn clone(&self) -> (r: Self)
        ensures
            self.same_as(r),
        decreases self,
    {
        match self {
            MemberProp::Ident(x) => MemberProp::Ident(x.clone()),
            MemberProp::PrivateName(x) => MemberProp::PrivateName(x.clone()),
            MemberProp::Computed(x) => MemberProp::Computed(x.clone()),
        }
    }
}

impl SuperPropExpr {
    /// `self` and `other` are the same tree: equal leaves, and lists of
    /// the same length whose items are the same trees, in order.
    pub open spec fn same_as(self, other: Self) -> bool
        decreases self,
    {
        &&& self.span == other.span
        &&& self.obj == other.obj
        &&& self.prop.same_as(other.prop)
    }

    /// Every tree is the same as itself.
    pub proof fn lemma_same_as_reflexive(&self)
        ensures
            self.same_as(*self),
        decreases self,
    {
        self.prop.lemma_same_as_reflexive();
    }
}

impl Clone for SuperPropExpr {
    fn clone(&self) -> (r: Self)
        ensures
            self.same_as(r),
        decreases self,
    {
        SuperPropExpr { span: self.span, obj: self.obj.clone(), prop: self.prop.clone() }
    }
}

impl SuperProp {
    /// `self` and `other` are the same tree: equal leaves, and lists of
    /// the same length whose items are the same trees, in order.
    pub open spec fn same_as(self, other: Self) -> bool
        decreases self,
    {
        match self {
            SuperProp::Ident(x) => other is Ident && x == other->Ident_0,
            SuperProp::Computed(x) => other is Computed && x.same_as(other->Computed_0),
        }
    }

    /// Every tree is the same as itself.
    pub proof fn lemma_same_as_reflexive(&self)
        ensures
            self.same_as(*self),
        decreases self,
    {
        match self {
            SuperProp::Ident(x) => {
            },
            SuperProp::Computed(x) => {
                x.lemma_same_as_reflexive();
            },
        }
    }
}

impl Clone for SuperProp {
    fn clone(&self) -> (r: Self)
        ensures
            self.same_as(r),
        decreases self,
    {
        match self {
            SuperProp::Ident(x) => SuperProp::Ident(x.clone()),
            SuperProp::Computed(x) => SuperProp::Computed(x.clone()),
        }
    }
}

impl CondExpr {
    /// `self` and `other` are the same tree: equal leaves, and lists of
    /// the same length whose items are the same trees, in order.
    pub open spec fn same_as(self, other: Self) -> bool
        decreases self,
    {
        &&& self.span == other.span
        &&& (*self.test).same_as((*other.test))
        &&& (*self.cons).same_as((*other.cons))
        &&& (*self.alt).same_as((*other.alt))
    }

    /// Every tree is the same as itself.
    pub proof fn lemma_same_as_reflexive(&self)
        ensures
            self.same_as(*self),
        decreases self,
    {
        self.test.lemma_same_as_reflexive();
        self.cons.lemma_same_as_reflexive();
        self.alt.lemma_same_as_reflexive();
    }
}

impl Clone for CondExpr {
    fn clone(&self) -> (r: Self)
        ensures
            self.same_as(r),
        decreases self,
    {
        CondExpr {
            span: self.span,
            test: Box::new((*self.test).clone()),
            cons: Box::new((*self.cons).clone()),
            alt: Box::new((*self.alt).clone()),
        }
    }
}

impl CallExpr {
    /// `self` and `other` are the same tree: equal leaves, and lists of
    /// the same length whose items are the same trees, in order.
    pub open spec fn same_as(self, other: Self) -> bool
        decreases self,
    {
        &&& self.span == other.span
        &&& self.ctxt == other.ctxt
        &&& self.callee.same_as(other.callee)
        &&& (self.args@.len() == other.args@.len() && forall|i0: int| #![trigger self.args@[i0]] 0 <= i0 < self.args@.len() ==> self.args@[i0].same_as(other.args@[i0]))
        &&& (match self.type_args { None => other.type_args is None, Some(x0) => other.type_args is Some && (*x0).same_as((*other.type_args->Some_0)) })
    }

    /// Every tree is the same as itself.
    pub proof fn lemma_same_as_reflexive(&self)
        ensures
            self.same_as(*self),
        decreases self,
    {
        self.callee.lemma_same_as_reflexive();
        assert forall|i0: int| #![trigger self.args@[i0]] 0 <= i0 < self.args@.len() implies self.args@[i0].same_as(self.args@[i0]) by {
            assert(decreases_to!(self => self.args));
            assert(decreases_to!(self.args => self.args@));
            assert(decreases_to!(self.args@ => self.args@[i0]));
            self.args@[i0].lemma_same_as_reflexive();
        }
        if let Some(x0) = &self.type_args {
            x0.lemma_same_as_reflexive();
        }
    }
}

impl Clone for CallExpr {
    fn clone(&self) -> (r: Self)
        ensures
            self.same_as(r),
        decreases self,
    {
        let mut args: Vec<ExprOrSpread> = Vec::new();
        let mut i: usize = 0;
        while i < self.args.len()
            invariant
                i <= self.args@.len(),
                args@.len() == i,
                forall|j: int| #![trigger args@[j]] 0 <= j < i ==> self.args@[j].same_as(args@[j]),
            decreases self.args@.len() - i,
        {
            proof {
                assert(decreases_to!(self => self.args));
                assert(decreases_to!(self.args => self.args@));
                assert(decreases_to!(self.args@ => self.args@[i as int]));
            }
            args.push(self.args[i].clone());
            i += 1;
        }
        let type_args = match &self.type_args {
            None => None,
            Some(x) => Some(Box::new((**x).clone())),
        };
        CallExpr { span: self.span, ctxt: self.ctxt, callee: self.callee.clone(), args, type_args }
    }
}

impl NewExpr {
    /// `self` and `other` are the same tree: equal leaves, and lists of
    /// the same length whose items are the same trees, in order.
    pub open spec fn same_as(self, other: Self) -> bool
        decreases self,
    {
        &&& self.span == other.span
        &&& self.ctxt == other.ctxt
        &&& (*self.callee).same_as((*other.callee))
        &&& (match self.args { None => other.args is None, Some(x0) => other.args is Some && (x0@.len() == other.args->Some_0@.len() && forall|i1: int| #![trigger x0@[i1]] 0 <= i1 < x0@.len() ==> x0@[i1].same_as(other.args->Some_0@[i1])) })
        &&& (match self.type_args { None => other.type_args is None, Some(x0) => other.type_args is Some && (*x0).same_as((*other.type_args->Some_0)) })
    }

    /// Every tree is the same as itself.
    pub proof fn lemma_same_as_reflexive(&self)
        ensures
            self.same_as(*self),
        decreases self,
    {
        self.callee.lemma_same_as_reflexive();
        if let Some(x0) = &self.args {
            assert forall|i1: int| #![trigger x0@[i1]] 0 <= i1 < x0@.len() implies x0@[i1].same_as(x0@[i1]) by {
                x0@[i1].lemma_same_as_reflexive();
            }
        }
        if let Some(x0) = &self.type_args {
            x0.lemma_same_as_reflexive();
        }
    }
}

impl Clone for NewExpr {
    #[verifier::loop_isolation(false)]
    fn clone(&self) -> (r: Self)
        ensures
            self.same_as(r),
        decreases self,
    {
        let args = match &self.args {
            None => None,
            Some(v) => {
                let mut out: Vec<ExprOrSpread> = Vec::new();
                let mut i: usize = 0;
                while i < v.len()
                    invariant
                        i <= v@.len(),
                        out@.len() == i,
                        forall|j: int| #![trigger out@[j]] 0 <= j < i ==> v@[j].same_as(out@[j]),
                    decreases v@.len() - i,
                {
                    proof {
                        assert(decreases_to!(self => self.args));
                        assert(decreases_to!(self.args => self.args->0));
                        assert(decreases_to!(self.args->0 => self.args->0@));
                        assert(decreases_to!(self.args->0@ => self.args->0@[i as int]));
                    }
                    out.push(v[i].clone());
                    i += 1;
                }
                Some(out)
            },
        };
        let type_args = match &self.type_args {
            None => None,
            Some(x) => Some(Box::new((**x).clone())),
        };
        NewExpr {
            span: self.span,
            ctxt: self.ctxt,
            callee: Box::new((*self.callee).clone()),
            args,
            type_args,
        }
    }
}

impl SeqExpr {
    /// `self` and `other` are the same tree: equal leaves, and lists of
    /// the same length whose items are the same trees, in order.
    pub open spec fn same_as(self, other: Self) -> bool
        decreases self,
    {
        &&& self.span == other.span
        &&& (self.exprs@.len() == other.exprs@.len() && forall|i0: int| #![trigger self.exprs@[i0]] 0 <= i0 < self.exprs@.len() ==> (*self.exprs@[i0]).same_as((*other.exprs@[i0])))
    }

    /// Every tree is the same as itself.
    pub proof fn lemma_same_as_reflexive(&self)
        ensures
            self.same_as(*self),
        decreases self,
    {
        assert forall|i0: int| #![trigger self.exprs@[i0]] 0 <= i0 < self.exprs@.len() implies (*self.exprs@[i0]).same_as((*self.exprs@[i0])) by {
            assert(decreases_to!(self => self.exprs));
            assert(decreases_to!(self.exprs => self.exprs@));
            assert(decreases_to!(self.exprs@ => self.exprs@[i0]));
            self.exprs@[i0].lemma_same_as_reflexive();
        }
    }
}

impl Clone for SeqExpr {
    fn clone(&self) -> (r: Self)
        ensures
            self.same_as(r),
        decreases self,
    {
        let mut exprs: Vec<Box<Expr>> = Vec::new();
        let mut i: usize = 0;
        while i < self.exprs.len()
            invariant
                i <= self.exprs@.len(),
                exprs@.len() == i,
                forall|j: int| #![trigger exprs@[j]] 0 <= j < i ==> (*self.exprs@[j]).same_as((*exprs@[j])),
            decreases self.exprs@.len() - i,
        {
            proof {
                assert(decreases_to!(self => self.exprs));
                assert(decreases_to!(self.exprs => self.exprs@));
                assert(decreases_to!(self.exprs@ => self.exprs@[i as int]));
            }
            exprs.push(Box::new((*self.exprs[i]).clone()));
            i += 1;
        }
        SeqExpr { span: self.span, exprs }
    }
}

impl ArrowExpr {
    /// `self` and `other` are the same tree: equal leaves, and lists of
    /// the same length whose items are the same trees, in order.
    pub open spec fn same_as(self, other: Self) -> bool
        decreases self,
    {
        &&& self.span == other.span
        &&& self.ctxt == other.ctxt
        &&& (self.params@.len() == other.params@.len() && forall|i0: int| #![trigger self.params@[i0]] 0 <= i0 < self.params@.len() ==> self.params@[i0].same_as(other.params@[i0]))
        &&& (*self.body).same_as((*other.body))
        &&& self.is_async == other.is_async
        &&& self.is_generator == other.is_generator
        &&& (match self.type_params { None => other.type_params is None, Some(x0) => other.type_params is Some && (*x0).same_as((*other.type_params->Some_0)) })
        &&& (match self.return_type { None => other.return_type is None, Some(x0) => other.return_type is Some && (*x0).same_as((*other.return_type->Some_0)) })
    }

    /// Every tree is the same as itself.
    pub proof fn lemma_same_as_reflexive(&self)
        ensures
            self.same_as(*self),
        decreases self,
    {
        assert forall|i0: int| #![trigger self.params@[i0]] 0 <= i0 < self.params@.len() implies self.params@[i0].same_as(self.params@[i0]) by {
            assert(decreases_to!(self => self.params));
            assert(decreases_to!(self.params => self.params@));
            assert(decreases_to!(self.params@ => self.params@[i0]));
            self.params@[i0].lemma_same_as_reflexive();
        }
        self.body.lemma_same_as_reflexive();
        if let Some(x0) = &self.type_params {
            x0.lemma_same_as_reflexive();
        }
        if let Some(x0) = &self.return_type {
            x0.lemma_same_as_reflexive();
        }
    }
}

impl Clone for ArrowExpr {
    fn clone(&self) -> (r: Self)
        ensures
            self.same_as(r),
        decreases self,
    {
        let mut params: Vec<Pat> = Vec::new();
        let mut i: usize = 0;
        while i < self.params.len()
            invariant
                i <= self.params@.len(),
                params@.len() == i,
                forall|j: int| #![trigger params@[j]] 0 <= j < i ==> self.params@[j].same_as(params@[j]),
            decreases self.params@.len() - i,
        {
            proof {
                assert(decreases_to!(self => self.params));
                assert(decreases_to!(self.params => self.params@));
                assert(decreases_to!(self.params@ => self.params@[i as int]));
            }
            params.push(self.params[i].clone());
            i += 1;
        }
        let type_params = match &self.type_params {
            None => None,
            Some(x) => Some(Box::new((**x).clone())),
        };
        let return_type = match &self.return_type {
            None => None,
            Some(x) => Some(Box::new((**x).clone())),
        };
        ArrowExpr {
            span: self.span,
            ctxt: self.ctxt,
            params,
            body: Box::new((*self.body).clone()),
            is_async: self.is_async,
            is_generator: self.is_generator,
            type_params,
            return_type,
        }
    }
}

impl YieldExpr {
    /// `self` and `other` are the same tree: equal leaves, and lists of
    /// the same length whose items are the same trees, in order.
    pub open spec fn same_as(self, other: Self) -> bool
        decreases self,
    {
        &&& self.span == other.span
        &&& (match self.arg { None => other.arg is None, Some(x0) => other.arg is Some && (*x0).same_as((*other.arg->Some_0)) })
        &&& self.delegate == other.delegate
    }

    /// Every tree is the same as itself.
    pub proof fn lemma_same_as_reflexive(&self)
        ensures
            self.same_as(*self),
        decreases self,
    {
        if let Some(x0) = &self.arg {
            x0.lemma_same_as_reflexive();
        }
    }
}

impl Clone for YieldExpr {
    fn clone(&self) -> (r: Self)
        ensures
            self.same_as(r),
        decreases self,
    {
        let arg = match &self.arg {
            None => None,
            Some(x) => Some(Box::new((**x).clone())),
        };
        YieldExpr { span: self.span, arg, delegate: self.delegate }
    }
}

impl Clone for MetaPropExpr {
    fn clone(&self) -> (r: Self)
        ensures
            r == *self,
        decreases self,
    {
        MetaPropExpr { span: self.span, kind: self.kind }
    }
}

impl AwaitExpr {
    /// `self` and `other` are the same tree: equal leaves, and lists of
    /// the same length whose items are the same trees, in order.
    pub open spec fn same_as(self, other: Self) -> bool
        decreases self,
    {
        &&& self.span == other.span
        &&& (*self.arg).same_as((*other.arg))
    }

    /// Every tree is the same as itself.
    pub proof fn lemma_same_as_reflexive(&self)
        ensures
            self.same_as(*self),
        decreases self,
    {
        self.arg.lemma_same_as_reflexive();
    }
}

impl Clone for AwaitExpr {
    fn clone(&self) -> (r: Self)
        ensures
            self.same_as(r),
        decreases self,
    {
        AwaitExpr { span: self.span, arg: Box::new((*self.arg).clone()) }
    }
}

impl Tpl {
    /// `self` and `other` are the same tree: equal leaves, and lists of
    /// the same length whose items are the same trees, in order.
    pub open spec fn same_as(self, other: Self) -> bool
        decreases self,
    {
        &&& self.span == other.span
        &&& (self.exprs@.len() == other.exprs@.len() && forall|i0: int| #![trigger self.exprs@[i0]] 0 <= i0 < self.exprs@.len() ==> (*self.exprs@[i0]).same_as((*other.exprs@[i0])))
        &&& self.quasis@ == other.quasis@
    }

    /// Every tree is the same as itself.
    pub proof fn lemma_same_as_reflexive(&self)
        ensures
            self.same_as(*self),
        decreases self,
    {
        assert forall|i0: int| #![trigger self.exprs@[i0]] 0 <= i0 < self.exprs@.len() implies (*self.exprs@[i0]).same_as((*self.exprs@[i0])) by {
            assert(decreases_to!(self => self.exprs));
            assert(decreases_to!(self.exprs => self.exprs@));
            assert(decreases_to!(self.exprs@ => self.exprs@[i0]));
            self.exprs@[i0].lemma_same_as_reflexive();
        }
    }
}

impl Clone for Tpl {
    fn clone(&self) -> (r: Self)
        ensures
            self.same_as(r),
        decreases self,
    {
        let mut exprs: Vec<Box<Expr>> = Vec::new();
        let mut i: usize = 0;
        while i < self.exprs.len()
            invariant
                i <= self.exprs@.len(),
                exprs@.len() == i,
                forall|j: int| #![trigger exprs@[j]] 0 <= j < i ==> (*self.exprs@[j]).same_as((*exprs@[j])),
            decreases self.exprs@.len() - i,
        {
            proof {
                assert(decreases_to!(self => self.exprs));
                assert(decreases_to!(self.exprs => self.exprs@));
                assert(decreases_to!(self.exprs@ => self.exprs@[i as int]));
            }
            exprs.push(Box::new((*self.exprs[i]).clone()));
            i += 1;
        }
        let mut quasis: Vec<TplElement> = Vec::new();
        let mut i: usize = 0;
        while i < self.quasis.len()
            invariant
                i <= self.quasis@.len(),
                quasis@.len() == i,
                forall|j: int| #![trigger quasis@[j]] 0 <= j < i ==> quasis@[j] == self.quasis@[j],
            decreases self.quasis@.len() - i,
        {
            quasis.push(self.quasis[i].clone());
            i += 1;
        }
        proof {
            assert(quasis@ =~= self.quasis@);
        }
        Tpl { span: self.span, exprs, quasis }
    }
}

impl TaggedTpl {
    /// `self` and `other` are the same tree: equal leaves, and lists of
    /// the same length whose items are the same trees, in order.
    pub open spec fn same_as(self, other: Self) -> bool
        decreases self,
    {
        &&& self.span == other.span
        &&& self.ctxt == other.ctxt
        &&& (*self.tag).same_as((*other.tag))
        &&& (match self.type_params { None => other.type_params is None, Some(x0) => other.type_params is Some && (*x0).same_as((*other.type_params->Some_0)) })
        &&& (*self.tpl).same_as((*other.tpl))
    }

    /// Every tree is the same as itself.
    pub proof fn lemma_same_as_reflexive(&self)
        ensures
            self.same_as(*self),
        decreases self,
    {
        self.tag.lemma_same_as_reflexive();
        if let Some(x0) = &self.type_params {
            x0.lemma_same_as_reflexive();
        }
        self.tpl.lemma_same_as_reflexive();
    }
}

impl Clone for TaggedTpl {
    fn clone(&self) -> (r: Self)
        ensures
            self.same_as(r),
        decreases self,
    {
        let type_params = match &self.type_params {
            None => None,
            Some(x) => Some(Box::new((**x).clone())),
        };
        TaggedTpl {
            span: self.span,
            ctxt: self.ctxt,
            tag: Box::new((*self.tag).clone()),
            type_params,
            tpl: Box::new((*self.tpl).clone()),
        }
    }
}

impl Clone for TplElement {
    fn clone(&self) -> (r: Self)
        ensures
            r == *self,
        decreases self,
    {
        let cooked = match &self.cooked {
            None => None,
            Some(x) => Some(x.clone()),
        };
        TplElement { span: self.span, tail: self.tail, cooked, raw: self.raw.clone() }
    }
}

impl ParenExpr {
    /// `self` and `other` are the same tree: equal leaves, and lists of
    /// the same length whose items are the same trees, in order.
    pub open spec fn same_as(self, other: Self) -> bool
        decreases self,
    {
        &&& self.span == other.span
        &&& (*self.expr).same_as((*other.expr))
    }

    /// Every tree is the same as itself.
    pub proof fn lemma_same_as_reflexive(&self)
        ensures
            self.same_as(*self),
        decreases self,
    {
        self.expr.lemma_same_as_reflexive();
    }
}

impl Clone for ParenExpr {
    fn clone(&self) -> (r: Self)
        ensures
            self.same_as(r),
        decreases self,
    {
        ParenExpr { span: self.span, expr: Box::new((*self.expr).clone()) }
    }
}

impl Callee {
    /// `self` and `other` are the same tree: equal leaves, and lists of
    /// the same length whose items are the same trees, in order.
    pub open spec fn same_as(self, other: Self) -> bool
        decreases self,
    {
        match self {
            Callee::Super(x) => other is Super && x == other->Super_0,
            Callee::Import(x) => other is Import && x == other->Import_0,
            Callee::Expr(x) => other is Expr && (*x).same_as((*other->Expr_0)),
        }
    }

    /// Every tree is the same as itself.
    pub proof fn lemma_same_as_reflexive(&self)
        ensures
            self.same_as(*self),
        decreases self,
    {
        match self {
            Callee::Super(x) => {
            },
            Callee::Import(x) => {
            },
            Callee::Expr(x) => {
                x.lemma_same_as_reflexive();
            },
        }
    }
}

impl Clone for Callee {
    fn clone(&self) -> (r: Self)
        ensures
            self.same_as(r),
        decreases self,
    {
        match self {
            Callee::Super(x) => Callee::Super(x.clone()),
            Callee::Import(x) => Callee::Import(x.clone()),
            Callee::Expr(x) => Callee::Expr(Box::new((**x).clone())),
        }
    }
}

impl Clone for Super {
    fn clone(&self) -> (r: Self)
        ensures
            r == *self,
        decreases self,
    {
        Super { span: self.span }
    }
}

impl Clone for Import {
    fn clone(&self) -> (r: Self)
        ensures
            r == *self,
        decreases self,
    {
        Import { span: self.span, phase: self.phase }
    }
}

impl ExprOrSpread {
    /// `self` and `other` are the same tree: equal leaves, and lists of
    /// the same length whose items are the same trees, in order.
    pub open spec fn same_as(self, other: Self) -> bool
        decreases self,
    {
        &&& self.spread == other.spread
        &&& (*self.expr).same_as((*other.expr))
    }

    /// Every tree is the same as itself.
    pub proof fn lemma_same_as_reflexive(&self)
        ensures
            self.same_as(*self),
        decreases self,
    {
        self.expr.lemma_same_as_reflexive();
    }
}

impl Clone for ExprOrSpread {
    fn clone(&self) -> (r: Self)
        ensures
            self.same_as(r),
        decreases self,
    {
        ExprOrSpread { spread: self.spread, expr: Box::new((*self.expr).clone()) }
    }
}

impl ArrowFunctionBody {
    /// `self` and `other` are the same tree: equal leaves, and lists of
    /// the same length whose items are the same trees, in order.
    pub open spec fn same_as(self, other: Self) -> bool
        decreases self,
    {
        match self {
            ArrowFunctionBody::FunctionBody(x) => other is FunctionBody && x.same_as(other->FunctionBody_0),
            ArrowFunctionBody::Expr(x) => other is Expr && (*x).same_as((*other->Expr_0)),
        }
    }

    /// Every tree is the same as itself.
    pub proof fn lemma_same_as_reflexive(&self)
        ensures
            self.same_as(*self),
        decreases self,
    {
        match self {
            ArrowFunctionBody::FunctionBody(x) => {
                x.lemma_same_as_reflexive();
            },
            ArrowFunctionBody::Expr(x) => {
                x.lemma_same_as_reflexive();
            },
        }
    }
}

impl Clone for ArrowFunctionBody {
    fn clone(&self) -> (r: Self)
        ensures
            self.same_as(r),
        decreases self,
    {
        match self {
            ArrowFunctionBody::FunctionBody(x) => ArrowFunctionBody::FunctionBody(x.clone()),
            ArrowFunctionBody::Expr(x) => ArrowFunctionBody::Expr(Box::new((**x).clone())),
        }
    }
}

impl AssignTarget {
    /// `self` and `other` are the same tree: equal leaves, and lists of
    /// the same length whose items are the same trees, in order.
    pub open spec fn same_as(self, other: Self) -> bool
        decreases self,
    {
        match self {
            AssignTarget::Simple(x) => other is Simple && x.same_as(other->Simple_0),
            AssignTarget::Pat(x) => other is Pat && x.same_as(other->Pat_0),
        }
    }

    /// Every tree is the same as itself.
    pub proof fn lemma_same_as_reflexive(&self)
        ensures
            self.same_as(*self),
        decreases self,
    {
        match self {
            AssignTarget::Simple(x) => {
                x.lemma_same_as_reflexive();
            },
            AssignTarget::Pat(x) => {
                x.lemma_same_as_reflexive();
            },
        }
    }
}

impl Clone for AssignTarget {
    fn clone(&self) -> (r: Self)
        ensures
            self.same_as(r),
        decreases self,
    {
        match self {
            AssignTarget::Simple(x) => AssignTarget::Simple(x.clone()),
            AssignTarget::Pat(x) => AssignTarget::Pat(x.clone()),
        }
    }
}

impl AssignTargetPat {
    /// `self` and `other` are the same tree: equal leaves, and lists of
    /// the same length whose items are the same trees, in order.
    pub open spec fn same_as(self, other: Self) -> bool
        decreases self,
    {
        match self {
            AssignTargetPat::Array(x) => other is Array && x.same_as(other->Array_0),
            AssignTargetPat::Object(x) => other is Object && x.same_as(other->Object_0),
            AssignTargetPat::Invalid(x) => other is Invalid && x == other->Invalid_0,
        }
    }

    /// Every tree is the same as itself.
    pub proof fn lemma_same_as_reflexive(&self)
        ensures
            self.same_as(*self),
        decreases self,
    {
        match self {
            AssignTargetPat::Array(x) => {
                x.lemma_same_as_reflexive();
            },
            AssignTargetPat::Object(x) => {
                x.lemma_same_as_reflexive();
            },
            AssignTargetPat::Invalid(x) => {
            },
        }
    }
}

impl Clone for AssignTargetPat {
    fn clone(&self) -> (r: Self)
        ensures
            self.same_as(r),
        decreases self,
    {
        match self {
            AssignTargetPat::Array(x) => AssignTargetPat::Array(x.clone()),
            AssignTargetPat::Object(x) => AssignTargetPat::Object(x.clone()),
            AssignTargetPat::Invalid(x) => AssignTargetPat::Invalid(*x),
        }
    }
}

impl SimpleAssignTarget {
    /// `self` and `other` are the same tree: equal leaves, and lists of
    /// the same length whose items are the same trees, in order.
    pub open spec fn same_as(self, other: Self) -> bool
        decreases self,
    {
        match self {
            SimpleAssignTarget::Ident(x) => other is Ident && x.same_as(other->Ident_0),
            SimpleAssignTarget::Member(x) => other is Member && x.same_as(other->Member_0),
            SimpleAssignTarget::SuperProp(x) => other is SuperProp && x.same_as(other->SuperProp_0),
            SimpleAssignTarget::Paren(x) => other is Paren && x.same_as(other->Paren_0),
            SimpleAssignTarget::OptChain(x) => other is OptChain && x.same_as(other->OptChain_0),
            SimpleAssignTarget::TsAs(x) => other is TsAs && x.same_as(other->TsAs_0),
            SimpleAssignTarget::TsSatisfies(x) => other is TsSatisfies && x.same_as(other->TsSatisfies_0),
            SimpleAssignTarget::TsNonNull(x) => other is TsNonNull && x.same_as(other->TsNonNull_0),
            SimpleAssignTarget::TsTypeAssertion(x) => other is TsTypeAssertion && x.same_as(other->TsTypeAssertion_0),
            SimpleAssignTarget::TsInstantiation(x) => other is TsInstantiation && x.same_as(other->TsInstantiation_0),
            SimpleAssignTarget::Invalid(x) => other is Invalid && x == other->Invalid_0,
        }
    }

    /// Every tree is the same as itself.
    pub proof fn lemma_same_as_reflexive(&self)
        ensures
            self.same_as(*self),
        decreases self,
    {
        match self {
            SimpleAssignTarget::Ident(x) => {
                x.lemma_same_as_reflexive();
            },
            SimpleAssignTarget::Member(x) => {
                x.lemma_same_as_reflexive();
            },
            SimpleAssignTarget::SuperProp(x) => {
                x.lemma_same_as_reflexive();
            },
            SimpleAssignTarget::Paren(x) => {
                x.lemma_same_as_reflexive();
            },
            SimpleAssignTarget::OptChain(x) => {
                x.lemma_same_as_reflexive();
            },
            SimpleAssignTarget::TsAs(x) => {
                x.lemma_same_as_reflexive();
            },
            SimpleAssignTarget::TsSatisfies(x) => {
                x.lemma_same_as_reflexive();
            },
            SimpleAssignTarget::TsNonNull(x) => {
                x.lemma_same_as_reflexive();
            },
            SimpleAssignTarget::TsTypeAssertion(x) => {
                x.lemma_same_as_reflexive();
            },
            SimpleAssignTarget::TsInstantiation(x) => {
                x.lemma_same_as_reflexive();
            },
            SimpleAssignTarget::Invalid(x) => {
            },
        }
    }
}

impl Clone for SimpleAssignTarget {
    fn clone(&self) -> (r: Self)
        ensures
            self.same_as(r),
        decreases self,
    {
        match self {
            SimpleAssignTarget::Ident(x) => SimpleAssignTarget::Ident(x.clone()),
            SimpleAssignTarget::Member(x) => SimpleAssignTarget::Member(x.clone()),
            SimpleAssignTarget::SuperProp(x) => SimpleAssignTarget::SuperProp(x.clone()),
            SimpleAssignTarget::Paren(x) => SimpleAssignTarget::Paren(x.clone()),
            SimpleAssignTarget::OptChain(x) => SimpleAssignTarget::OptChain(x.clone()),
            SimpleAssignTarget::TsAs(x) => SimpleAssignTarget::TsAs(x.clone()),
            SimpleAssignTarget::TsSatisfies(x) => SimpleAssignTarget::TsSatisfies(x.clone()),
            SimpleAssignTarget::TsNonNull(x) => SimpleAssignTarget::TsNonNull(x.clone()),
            SimpleAssignTarget::TsTypeAssertion(x) => SimpleAssignTarget::TsTypeAssertion(x.clone()),
            SimpleAssignTarget::TsInstantiation(x) => SimpleAssignTarget::TsInstantiation(x.clone()),
            SimpleAssignTarget::Invalid(x) => SimpleAssignTarget::Invalid(*x),
        }
    }
}

impl OptChainExpr {
    /// `self` and `other` are the same tree: equal leaves, and lists of
    /// the same length whose items are the same trees, in order.
    pub open spec fn same_as(self, other: Self) -> bool
        decreases self,
    {
        &&& self.span == other.span
        &&& self.optional == other.optional
        &&& (*self.base).same_as((*other.base))
    }

    /// Every tree is the same as itself.
    pub proof fn lemma_same_as_reflexive(&self)
        ensures
            self.same_as(*self),
        decreases self,
    {
        self.base.lemma_same_as_reflexive();
    }
}

impl Clone for OptChainExpr {
    fn clone(&self) -> (r: Self)
        ensures
            self.same_as(r),
        decreases self,
    {
        OptChainExpr {
            span: self.span,
            optional: self.optional,
            base: Box::new((*self.base).clone()),
        }
    }
}

impl OptChainBase {
    /// `self` and `other` are the same tree: equal leaves, and lists of
    /// the same length whose items are the same trees, in order.
    pub open spec fn same_as(self, other: Self) -> bool
        decreases self,
    {
        match self {
            OptChainBase::Member(x) => other is Member && x.same_as(other->Member_0),
            OptChainBase::Call(x) => other is Call && x.same_as(other->Call_0),
        }
    }

    /// Every tree is the same as itself.
    pub proof fn lemma_same_as_reflexive(&self)
        ensures
            self.same_as(*self),
        decreases self,
    {
        match self {
            OptChainBase::Member(x) => {
                x.lemma_same_as_reflexive();
            },
            OptChainBase::Call(x) => {
                x.lemma_same_as_reflexive();
            },
        }
    }
}

impl Clone for OptChainBase {
    fn clone(&self) -> (r: Self)
        ensures
            self.same_as(r),
        decreases self,
    {
        match self {
            OptChainBase::Member(x) => OptChainBase::Member(x.clone()),
            OptChainBase::Call(x) => OptChainBase::Call(x.clone()),
        }
    }
}

impl OptCall {
    /// `self` and `other` are the same tree: equal leaves, and lists of
    /// the same length whose items are the same trees, in order.
    pub open spec fn same_as(self, other: Self) -> bool
        decreases self,
    {
        &&& self.span == other.span
        &&& self.ctxt == other.ctxt
        &&& (*self.callee).same_as((*other.callee))
        &&& (self.args@.len() == other.args@.len() && forall|i0: int| #![trigger self.args@[i0]] 0 <= i0 < self.args@.len() ==> self.args@[i0].same_as(other.args@[i0]))
        &&& (match self.type_args { None => other.type_args is None, Some(x0) => other.type_args is Some && (*x0).same_as((*other.type_args->Some_0)) })
    }

    /// Every tree is the same as itself.
    pub proof fn lemma_same_as_reflexive(&self)
        ensures
            self.same_as(*self),
        decreases self,
    {
        self.callee.lemma_same_as_reflexive();
        assert forall|i0: int| #![trigger self.args@[i0]] 0 <= i0 < self.args@.len() implies self.args@[i0].same_as(self.args@[i0]) by {
            assert(decreases_to!(self => self.args));
            assert(decreases_to!(self.args => self.args@));
            assert(decreases_to!(self.args@ => self.args@[i0]));
            self.args@[i0].lemma_same_as_reflexive();
        }
        if let Some(x0) = &self.type_args {
            x0.lemma_same_as_reflexive();
        }
    }
}

impl Clone for OptCall {
    fn clone(&self) -> (r: Self)
        ensures
            self.same_as(r),
        decreases self,
    {
        let mut args: Vec<ExprOrSpread> = Vec::new();
        let mut i: usize = 0;
        while i < self.args.len()
            invariant
                i <= self.args@.len(),
                args@.len() == i,
                forall|j: int| #![trigger args@[j]] 0 <= j < i ==> self.args@[j].same_as(args@[j]),
            decreases self.args@.len() - i,
        {
            proof {
                assert(decreases_to!(self => self.args));
                assert(decreases_to!(self.args => self.args@));
                assert(decreases_to!(self.args@ => self.args@[i as int]));
            }
            args.push(self.args[i].clone());
            i += 1;
        }
        let type_args = match &self.type_args {
            None => None,
            Some(x) => Some(Box::new((**x).clone())),
        };
        OptCall {
            span: self.span,
            ctxt: self.ctxt,
            callee: Box::new((*self.callee).clone()),
            args,
            type_args,
        }
    }
}
} // verus!
