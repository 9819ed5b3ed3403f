//! Declarations in lowered form.
use std::sync::Arc;
use vstd::prelude::*;

use crate::ast::common::{Ident, Span};
use crate::ast::decl::{Decl, UsingDecl, VarDecl, VarDeclarator};
use crate::ast::typescript::{
    TsEnumDecl, TsEnumMember, TsEnumMemberId, TsExprWithTypeArgs, TsInterfaceDecl, TsModuleDecl,
    TsTypeElement,
};
use crate::class::{lower_class, lowers_class, ClassData};
use crate::enums::VarDeclKind;
use crate::expr::{lower_opt_expr, lowers_opt_expr, ExprData};
use crate::function::{lower_function, lowers_function, FunctionData};
use crate::pat::{lower_pat, lowers_pat, PatData};
use crate::typeinfo::{
    lower_opt_ts_type_param_decl, lower_tstype, lowers_opt_ts_type_param_decl, lowers_tstype, TsTypeData,
    TsTypeParamDeclData,
};

verus! {

#[derive(Clone, Debug, PartialEq, Eq)]
pub struct ClassDeclData {
    pub ident: Ident,
    pub declare: bool,
    pub class: Arc<ClassData>,
}

#[derive(Clone, Debug, PartialEq, Eq)]
pub struct FnDeclData {
    pub ident: Ident,
    pub declare: bool,
    pub function: Arc<FunctionData>,
}

/// One binding of a variable declaration: `name = init`.
#[derive(Clone, Debug, PartialEq, Eq)]
pub struct VarDeclaratorData {
    pub span: Span,
    pub name: Arc<PatData>,
    pub init: Option<Arc<ExprData>>,
    pub definite: bool,
}

#[derive(Clone, Debug, PartialEq, Eq)]
pub struct VarDeclData {
    pub span: Span,
    pub ctxt: u32,
    pub kind: VarDeclKind,
    pub declare: bool,
    pub decls: Vec<VarDeclaratorData>,
}

/// `using` or `await using` declarations.
#[derive(Clone, Debug, PartialEq, Eq)]
pub struct UsingDeclData {
    pub span: Span,
    pub is_await: bool,
    pub decls: Vec<VarDeclaratorData>,
}

#[derive(Clone, Debug, PartialEq, Eq)]
pub struct TsInterfaceBodyData {
    pub span: Span,
    pub body: Vec<TsTypeElement>,
}

#[derive(Clone, Debug, PartialEq, Eq)]
pub struct TsInterfaceDeclData {
    pub span: Span,
    pub id: Ident,
    pub declare: bool,
    pub type_params: Option<Arc<TsTypeParamDeclData>>,
    pub extends: Vec<TsExprWithTypeArgs>,
    pub body: Arc<TsInterfaceBodyData>,
}

#[derive(Clone, Debug, PartialEq, Eq)]
pub struct TsTypeAliasDeclData {
    pub span: Span,
    pub declare: bool,
    pub id: Ident,
    pub type_params: Option<Arc<TsTypeParamDeclData>>,
    pub type_ann: Arc<TsTypeData>,
}

#[derive(Clone, Debug, PartialEq, Eq)]
pub struct TsEnumMemberData {
    pub span: Span,
    pub id: TsEnumMemberId,
    pub init: Option<Arc<ExprData>>,
}

#[derive(Clone, Debug, PartialEq, Eq)]
pub struct TsEnumDeclData {
    pub span: Span,
    pub declare: bool,
    pub is_const: bool,
    pub id: Ident,
    pub members: Vec<TsEnumMemberData>,
}

/// A lowered declaration; a namespace or module declaration is kept as
/// parsed.
#[derive(Clone, Debug, PartialEq, Eq)]
pub enum DeclData {
    Class(Arc<ClassDeclData>),
    Fn(Arc<FnDeclData>),
    Var(VarDeclData),
    Using(UsingDeclData),
    TsInterface(TsInterfaceDeclData),
    TsTypeAlias(TsTypeAliasDeclData),
    TsEnum(TsEnumDeclData),
    TsModule(TsModuleDecl),
}

// ---------------------------------------------------------------------
// What lowering produces
// ---------------------------------------------------------------------

/// `d` is the lowered form of the declarator `v`.
pub open spec fn lowers_var_declarator(v: VarDeclarator, d: VarDeclaratorData) -> bool
    decreases v,
{
    &&& d.span == v.span
    &&& lowers_pat(v.name, *d.name)
    &&& lowers_opt_expr(v.init, d.init)
    &&& d.definite == v.definite
}

/// `d` is the lowered form of the declarator list `v`, in order.
pub open spec fn lowers_var_declarators(v: Seq<VarDeclarator>, d: Seq<VarDeclaratorData>) -> bool
    decreases v,
{
    &&& d.len() == v.len()
    &&& forall|i: int| 0 <= i < v.len() ==> lowers_var_declarator(#[trigger] v[i], d[i])
}

/// `d` is the lowered form of the variable declaration `v`.
pub open spec fn lowers_var_decl(v: VarDecl, d: VarDeclData) -> bool
    decreases v,
{
    &&& d.span == v.span
    &&& d.ctxt == v.ctxt
    &&& d.kind == v.kind
    &&& d.declare == v.declare
    &&& lowers_var_declarators(v.decls@, d.decls@)
}

/// `d` is the lowered form of the `using` declaration `u`.
pub open spec fn lowers_using_decl(u: UsingDecl, d: UsingDeclData) -> bool
    decreases u,
{
    d.span == u.span && d.is_await == u.is_await && lowers_var_declarators(u.decls@, d.decls@)
}

/// `d` is the lowered form of the interface declaration `i`: its type
/// parameters are lowered, its `extends` clauses and members kept.
pub open spec fn lowers_ts_interface_decl(i: TsInterfaceDecl, d: TsInterfaceDeclData) -> bool
    decreases i,
{
    &&& d.span == i.span
    &&& d.id == i.id
    &&& d.declare == i.declare
    &&& lowers_opt_ts_type_param_decl(i.type_params, d.type_params)
    &&& d.extends == i.extends
    &&& d.body.span == i.body.span
    &&& d.body.body == i.body.body
}

/// `d` is the lowered form of the enum member `m`.
pub open spec fn lowers_ts_enum_member(m: TsEnumMember, d: TsEnumMemberData) -> bool
    decreases m,
{
    d.span == m.span && d.id == m.id && lowers_opt_expr(m.init, d.init)
}

/// `d` is the lowered form of the enum declaration `e`.
pub open spec fn lowers_ts_enum_decl(e: TsEnumDecl, d: TsEnumDeclData) -> bool
    decreases e,
{
    &&& d.span == e.span
    &&& d.declare == e.declare
    &&& d.is_const == e.is_const
    &&& d.id == e.id
    &&& d.members@.len() == e.members@.len()
    &&& forall|i: int| 0 <= i < e.members@.len() ==> lowers_ts_enum_member(#[trigger] e.members@[i], d.members@[i])
}

/// `d` is the lowered form of the declaration `x`.
pub open spec fn lowers_decl(x: Decl, d: DeclData) -> bool
    decreases x,
{
    match x {
        Decl::Class(c) => match d {
            DeclData::Class(y) => y.ident == c.ident && y.declare == c.declare && lowers_class(*c.class, *y.class),
            _ => false,
        },
        Decl::Fn(f) => match d {
            DeclData::Fn(y) => y.ident == f.ident && y.declare == f.declare && lowers_function(*f.function, *y.function),
            _ => false,
        },
        Decl::Var(v) => d is Var && lowers_var_decl(*v, d->Var_0),
        Decl::Using(u) => d is Using && lowers_using_decl(*u, d->Using_0),
        Decl::TsInterface(i) => d is TsInterface && lowers_ts_interface_decl(*i, d->TsInterface_0),
        Decl::TsTypeAlias(a) => match d {
            DeclData::TsTypeAlias(y) => {
                &&& y.span == a.span
                &&& y.declare == a.declare
                &&& y.id == a.id
                &&& lowers_opt_ts_type_param_decl(a.type_params, y.type_params)
                &&& lowers_tstype(*a.type_ann, *y.type_ann)
            },
            _ => false,
        },
        Decl::TsEnum(e) => d is TsEnum && lowers_ts_enum_decl(*e, d->TsEnum_0),
        Decl::TsModule(m) => d == DeclData::TsModule(*m),
    }
}

// ---------------------------------------------------------------------
// Lowering
// ---------------------------------------------------------------------

/// Lowers one binding of a variable declaration.
pub fn lower_var_declarator(v: VarDeclarator) -> (d: VarDeclaratorData)
    ensures
        lowers_var_declarator(v, d),
    decreases v,
{
    VarDeclaratorData { span: v.span, name: Arc::new(lower_pat(v.name)), init: lower_opt_expr(v.init), definite: v.definite }
}

#[verifier::loop_isolation(false)]
fn lower_var_declarators(v: Vec<VarDeclarator>) -> (d: Vec<VarDeclaratorData>)
    ensures
        lowers_var_declarators(v@, d@),
    decreases v,
{
    let ghost gv = v@;
    let mut out: Vec<VarDeclaratorData> = Vec::new();
    for x in it: v.into_iter()
        invariant
            it.seq() == gv,
            out@.len() == it.index(),
            forall|j: int| 0 <= j < it.index() ==> lowers_var_declarator(#[trigger] gv[j], out@[j]),
    {
        proof {
            assert(decreases_to!(v => v@));
            assert(decreases_to!(v@ => v@[it.index() as int]));
        }
        out.push(lower_var_declarator(x));
    }
    out
}

/// Lowers a variable declaration.
pub fn lower_var_decl(v: VarDecl) -> (d: VarDeclData)
    ensures
        lowers_var_decl(v, d),
    decreases v,
{
    VarDeclData { span: v.span, ctxt: v.ctxt, kind: v.kind, declare: v.declare, decls: lower_var_declarators(v.decls) }
}

/// Lowers a `using` declaration.
pub fn lower_using_decl(u: UsingDecl) -> (d: UsingDeclData)
    ensures
        lowers_using_decl(u, d),
    decreases u,
{
    UsingDeclData { span: u.span, is_await: u.is_await, decls: lower_var_declarators(u.decls) }
}

/// Lowers an interface declaration.
pub fn lower_ts_interface_decl(i: TsInterfaceDecl) -> (d: TsInterfaceDeclData)
    ensures
        lowers_ts_interface_decl(i, d),
    decreases i,
{
    TsInterfaceDeclData {
        span: i.span,
        id: i.id,
        declare: i.declare,
        type_params: lower_opt_ts_type_param_decl(i.type_params),
        extends: i.extends,
        body: Arc::new(TsInterfaceBodyData { span: i.body.span, body: i.body.body }),
    }
}

/// Lowers an enum member.
pub fn lower_ts_enum_member(m: TsEnumMember) -> (d: TsEnumMemberData)
    ensures
        lowers_ts_enum_member(m, d),
    decreases m,
{
    TsEnumMemberData { span: m.span, id: m.id, init: lower_opt_expr(m.init) }
}

#[verifier::loop_isolation(false)]
fn lower_ts_enum_decl(e: TsEnumDecl) -> (d: TsEnumDeclData)
    ensures
        lowers_ts_enum_decl(e, d),
    decreases e,
{
    let ghost gm = e.members@;
    let mut members: Vec<TsEnumMemberData> = Vec::new();
    for m in it: e.members.into_iter()
        invariant
            it.seq() == gm,
            members@.len() == it.index(),
            forall|j: int| 0 <= j < it.index() ==> lowers_ts_enum_member(#[trigger] gm[j], members@[j]),
    {
        proof {
            assert(decreases_to!(e => e.members));
            assert(decreases_to!(e.members => e.members@));
            assert(decreases_to!(e.members@ => e.members@[it.index() as int]));
        }
        members.push(lower_ts_enum_member(m));
    }
    TsEnumDeclData { span: e.span, declare: e.declare, is_const: e.is_const, id: e.id, members }
}

/// Lowers a declaration.
pub fn lower_decl(decl: Decl) -> (d: DeclData)
    ensures
        lowers_decl(decl, d),
    decreases decl,
{
    match decl {
        Decl::Class(c) => DeclData::Class(
            Arc::new(ClassDeclData { ident: c.ident, declare: c.declare, class: Arc::new(lower_class(*c.class)) }),
        ),
        Decl::Fn(f) => DeclData::Fn(
            Arc::new(FnDeclData { ident: f.ident, declare: f.declare, function: Arc::new(lower_function(*f.function)) }),
        ),
        Decl::Var(v) => DeclData::Var(lower_var_decl(*v)),
        Decl::Using(u) => DeclData::Using(lower_using_decl(*u)),
        Decl::TsInterface(i) => DeclData::TsInterface(lower_ts_interface_decl(*i)),
        Decl::TsTypeAlias(a) => DeclData::TsTypeAlias(
            TsTypeAliasDeclData {
                span: a.span,
                declare: a.declare,
                id: a.id,
                type_params: lower_opt_ts_type_param_decl(a.type_params),
                type_ann: Arc::new(lower_tstype(*a.type_ann)),
            },
        ),
        Decl::TsEnum(e) => DeclData::TsEnum(lower_ts_enum_decl(*e)),
        Decl::TsModule(m) => DeclData::TsModule(*m),
    }
}

impl TsEnumMemberData {
    /// The member's name when it is an identifier.
    pub fn id_ident(&self) -> (r: Option<Ident>)
        ensures
            r is Some <==> self.id is Ident,
            self.id is Ident ==> r == Some(self.id->Ident_0),
    {
        match &self.id {
            TsEnumMemberId::Ident(i) => Some(Ident { span: i.span, ctxt: i.ctxt, sym: i.sym.clone(), optional: i.optional }),
            TsEnumMemberId::Str(_) => None,
        }
    }

    /// The span of the member's name when it is a string.
    pub fn id_str_span(&self) -> (r: Option<Span>)
        ensures
            r is Some <==> self.id is Str,
            self.id is Str ==> r == Some(self.id->Str_0.span),
    {
        match &self.id {
            TsEnumMemberId::Str(s) => Some(s.span),
            TsEnumMemberId::Ident(_) => None,
        }
    }

    /// The value of the member's name when it is a string.
    pub fn id_str_value(&self) -> (r: Option<String>)
        ensures
            r is Some <==> self.id is Str,
            self.id is Str ==> r == Some(self.id->Str_0.value),
    {
        match &self.id {
            TsEnumMemberId::Str(s) => Some(s.value.clone()),
            TsEnumMemberId::Ident(_) => None,
        }
    }
}

} // verus!
