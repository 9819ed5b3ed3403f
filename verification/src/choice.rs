//! Flat records for the tree's choice nodes.
//!
//! A binding hands a choice node (a member property, a callee, a JSX name,
//! a `for` head, ...) to its host as one record with a field per
//! alternative. Exactly one alternative's field is set, and it holds that
//! alternative's content, lowered where the content is a subtree.
use std::sync::Arc;
use vstd::prelude::*;

use crate::ast::common::{Ident, IdentName, PrivateName, Span};
use crate::ast::expr::{Callee, MemberProp, SuperProp};
use crate::ast::jsx::{JSXAttrName, JSXElementName, JSXExpr, JSXMemberExpr, JSXNamespacedName, JSXObject};
use crate::ast::module_decl::ModuleExportName;
use crate::ast::stmt::{ForHead, VarDeclOrExpr};
use crate::ast::typescript::{TsEntityName, TsExternalModuleRef, TsModuleName, TsModuleRef, TsQualifiedName};
use crate::class::KeyData;
use crate::decl::{lower_using_decl, lower_var_decl, lowers_using_decl, lowers_var_decl, UsingDeclData, VarDeclData};
use crate::enums::ImportPhase;
use crate::expr::{lower_expr, lowers_expr, ExprData};
use crate::pat::{lower_pat, lowers_pat, PatData};
use crate::prop::{lower_computed_propname, lowers_computed_propname, ComputedPropNameData, PropNameData};

verus! {

/// The property of a member access: `.name`, `.#name` or `[expr]`.
#[derive(Debug, PartialEq, Eq)]
pub struct MemberPropFields {
    pub ident: Option<IdentName>,
    pub private_name: Option<PrivateName>,
    pub computed: Option<ComputedPropNameData>,
}

/// The property of a `super` access: `super.name` or `super[expr]`.
#[derive(Debug, PartialEq, Eq)]
pub struct SuperPropFields {
    pub ident: Option<IdentName>,
    pub computed: Option<ComputedPropNameData>,
}

/// What is called: `super`, `import` (with its span and phase), or an
/// expression.
#[derive(Debug, PartialEq, Eq)]
pub struct CalleeFields {
    pub span: Option<Span>,
    pub is_super: bool,
    pub phase: Option<ImportPhase>,
    pub expr: Option<Arc<ExprData>>,
}

/// A TypeScript entity name: an identifier or a qualified name.
#[derive(Debug, PartialEq, Eq)]
pub struct TsEntityNameFields {
    pub ident: Option<Ident>,
    pub qualified_name: Option<TsQualifiedName>,
}

/// A module or namespace name: an identifier or a string (its span and
/// value).
#[derive(Debug, PartialEq, Eq)]
pub struct TsModuleNameFields {
    pub ident: Option<Ident>,
    pub str_span: Option<Span>,
    pub str_value: Option<String>,
}

/// The name of an import or export: an identifier or a string (its span
/// and value).
#[derive(Debug, PartialEq, Eq)]
pub struct ModuleExportNameFields {
    pub ident: Option<Ident>,
    pub str_span: Option<Span>,
    pub str_value: Option<String>,
}

/// The right side of `import x = ...`: an entity name or `require(...)`.
#[derive(Debug, PartialEq, Eq)]
pub struct TsModuleRefFields {
    pub entity_name: Option<TsEntityNameFields>,
    pub external_module_ref: Option<TsExternalModuleRef>,
}

/// The object of a JSX member name: a member name or an identifier.
#[derive(Debug, PartialEq, Eq)]
pub struct JSXObjectFields {
    pub jsx_member_expr: Option<Box<JSXMemberExpr>>,
    pub ident: Option<Ident>,
}

/// A JSX member name `a.b`, with its object as a record.
#[derive(Debug, PartialEq, Eq)]
pub struct JSXMemberExprFields {
    pub span: Span,
    pub obj: JSXObjectFields,
    pub prop: IdentName,
}

/// The content of a JSX expression container: empty (its span) or an
/// expression.
#[derive(Debug, PartialEq, Eq)]
pub struct JSXExprFields {
    pub empty_span: Option<Span>,
    pub expr: Option<Arc<ExprData>>,
}

/// The name of a JSX element.
#[derive(Debug, PartialEq, Eq)]
pub struct JSXElementNameFields {
    pub ident: Option<Ident>,
    pub jsx_member_expr: Option<JSXMemberExprFields>,
    pub jsx_namespaced_name: Option<JSXNamespacedName>,
}

/// The name of a JSX attribute.
#[derive(Debug, PartialEq, Eq)]
pub struct JSXAttrNameFields {
    pub ident: Option<IdentName>,
    pub jsx_namespaced_name: Option<JSXNamespacedName>,
}

/// The initializer of a `for` loop: a variable declaration or an
/// expression.
#[derive(Debug, PartialEq, Eq)]
pub struct VarDeclOrExprFields {
    pub var_decl: Option<VarDeclData>,
    pub expr: Option<Arc<ExprData>>,
}

/// The left side of `for ... in` and `for ... of`.
#[derive(Debug, PartialEq, Eq)]
pub struct ForHeadFields {
    pub var_decl: Option<VarDeclData>,
    pub using_decl: Option<UsingDeclData>,
    pub pat: Option<Arc<PatData>>,
}

/// The key of an auto accessor: a private name or a property name.
#[derive(Debug, PartialEq, Eq)]
pub struct KeyFields {
    pub private: Option<PrivateName>,
    pub public: Option<Arc<PropNameData>>,
}

// ---------------------------------------------------------------------
// Member and super properties, callees
// ---------------------------------------------------------------------

/// The record of a member property.
pub fn conv_member_prop(p: MemberProp) -> (r: MemberPropFields)
    ensures
        match p {
            MemberProp::Ident(i) => r.ident == Some(i) && r.private_name is None && r.computed is None,
            MemberProp::PrivateName(n) => r.ident is None && r.private_name == Some(n) && r.computed is None,
            MemberProp::Computed(c) => {
                &&& r.ident is None
                &&& r.private_name is None
                &&& r.computed is Some
                &&& lowers_computed_propname(c, r.computed->Some_0)
            },
        },
{
    match p {
        MemberProp::Ident(i) => MemberPropFields { ident: Some(i), private_name: None, computed: None },
        MemberProp::PrivateName(n) => MemberPropFields { ident: None, private_name: Some(n), computed: None },
        MemberProp::Computed(c) => MemberPropFields {
            ident: None,
            private_name: None,
            computed: Some(lower_computed_propname(c)),
        },
    }
}

/// The record of a `super` property.
pub fn conv_super_prop(p: SuperProp) -> (r: SuperPropFields)
    ensures
        match p {
            SuperProp::Ident(i) => r.ident == Some(i) && r.computed is None,
            SuperProp::Computed(c) => r.ident is None && r.computed is Some && lowers_computed_propname(
                c,
                r.computed->Some_0,
            ),
        },
{
    match p {
        SuperProp::Ident(i) => SuperPropFields { ident: Some(i), computed: None },
        SuperProp::Computed(c) => SuperPropFields { ident: None, computed: Some(lower_computed_propname(c)) },
    }
}

/// The record of a callee: `super` sets the span and the flag, `import`
/// the span and the phase, an expression only the lowered expression.
pub fn conv_callee(callee: Callee) -> (r: CalleeFields)
    ensures
        match callee {
            Callee::Super(s) => r.span == Some(s.span) && r.is_super && r.phase is None && r.expr is None,
            Callee::Import(i) => r.span == Some(i.span) && !r.is_super && r.phase == Some(i.phase) && r.expr is None,
            Callee::Expr(e) => {
                &&& r.span is None
                &&& !r.is_super
                &&& r.phase is None
                &&& r.expr is Some
                &&& lowers_expr(*e, *r.expr->Some_0)
            },
        },
{
    match callee {
        Callee::Super(s) => CalleeFields { span: Some(s.span), is_super: true, phase: None, expr: None },
        Callee::Expr(e) => CalleeFields { span: None, is_super: false, phase: None, expr: Some(Arc::new(lower_expr(*e))) },
        Callee::Import(i) => CalleeFields { span: Some(i.span), is_super: false, phase: Some(i.phase), expr: None },
    }
}

// ---------------------------------------------------------------------
// TypeScript and module names
// ---------------------------------------------------------------------

/// The record of an entity name; a qualified name is kept as it is.
pub fn conv_tsentityname(name: TsEntityName) -> (r: TsEntityNameFields)
    ensures
        match name {
            TsEntityName::TsQualifiedName(q) => r.ident is None && r.qualified_name == Some(*q),
            TsEntityName::Ident(i) => r.ident == Some(i) && r.qualified_name is None,
        },
{
    match name {
        TsEntityName::TsQualifiedName(q) => TsEntityNameFields { ident: None, qualified_name: Some(*q) },
        TsEntityName::Ident(i) => TsEntityNameFields { ident: Some(i), qualified_name: None },
    }
}

/// The record of a module name: a string name sets both its span and its
/// value.
pub fn conv_ts_module_name(name: TsModuleName) -> (r: TsModuleNameFields)
    ensures
        match name {
            TsModuleName::Ident(i) => r.ident == Some(i) && r.str_span is None && r.str_value is None,
            TsModuleName::Str(s) => r.ident is None && r.str_span == Some(s.span) && r.str_value == Some(s.value),
        },
{
    match name {
        TsModuleName::Ident(i) => TsModuleNameFields { ident: Some(i), str_span: None, str_value: None },
        TsModuleName::Str(s) => TsModuleNameFields { ident: None, str_span: Some(s.span), str_value: Some(s.value) },
    }
}

/// The record of an import or export name: a string name sets both its
/// span and its value.
pub fn conv_module_export_name(name: ModuleExportName) -> (r: ModuleExportNameFields)
    ensures
        match name {
            ModuleExportName::Ident(i) => r.ident == Some(i) && r.str_span is None && r.str_value is None,
            ModuleExportName::Str(s) => {
                &&& r.ident is None
                &&& r.str_span == Some(s.span)
                &&& r.str_value == Some(s.value)
            },
        },
{
    match name {
        ModuleExportName::Ident(i) => ModuleExportNameFields { ident: Some(i), str_span: None, str_value: None },
        ModuleExportName::Str(s) => ModuleExportNameFields { ident: None, str_span: Some(s.span), str_value: Some(s.value) },
    }
}

/// The record of a module reference; an entity name becomes its own
/// record.
pub fn conv_ts_module_ref(node: TsModuleRef) -> (r: TsModuleRefFields)
    ensures
        match node {
            TsModuleRef::TsEntityName(n) => {
                &&& r.external_module_ref is None
                &&& r.entity_name is Some
                &&& match n {
                    TsEntityName::TsQualifiedName(q) => {
                        &&& r.entity_name->Some_0.ident is None
                        &&& r.entity_name->Some_0.qualified_name == Some(*q)
                    },
                    TsEntityName::Ident(i) => {
                        &&& r.entity_name->Some_0.ident == Some(i)
                        &&& r.entity_name->Some_0.qualified_name is None
                    },
                }
            },
            TsModuleRef::TsExternalModuleRef(x) => r.entity_name is None && r.external_module_ref == Some(x),
        },
{
    match node {
        TsModuleRef::TsEntityName(n) => TsModuleRefFields { entity_name: Some(conv_tsentityname(n)), external_module_ref: None },
        TsModuleRef::TsExternalModuleRef(x) => TsModuleRefFields { entity_name: None, external_module_ref: Some(x) },
    }
}

// ---------------------------------------------------------------------
// JSX names and containers
// ---------------------------------------------------------------------

/// The record of the object of a JSX member name.
pub fn conv_jsx_object(obj: JSXObject) -> (r: JSXObjectFields)
    ensures
        match obj {
            JSXObject::JSXMemberExpr(m) => r.jsx_member_expr == Some(m) && r.ident is None,
            JSXObject::Ident(i) => r.jsx_member_expr is None && r.ident == Some(i),
        },
{
    match obj {
        JSXObject::JSXMemberExpr(m) => JSXObjectFields { jsx_member_expr: Some(m), ident: None },
        JSXObject::Ident(i) => JSXObjectFields { jsx_member_expr: None, ident: Some(i) },
    }
}

/// The record of a JSX member name: its span, its property, and the record
/// of its object.
pub fn conv_jsx_member_expr_data(node: JSXMemberExpr) -> (r: JSXMemberExprFields)
    ensures
        r.span == node.span,
        r.prop == node.prop,
        match node.obj {
            JSXObject::JSXMemberExpr(m) => r.obj.jsx_member_expr == Some(m) && r.obj.ident is None,
            JSXObject::Ident(i) => r.obj.jsx_member_expr is None && r.obj.ident == Some(i),
        },
{
    JSXMemberExprFields { span: node.span, obj: conv_jsx_object(node.obj), prop: node.prop }
}

/// The record of the content of a JSX expression container.
pub fn conv_jsx_expr(expr: JSXExpr) -> (r: JSXExprFields)
    ensures
        match expr {
            JSXExpr::JSXEmptyExpr(e) => r.empty_span == Some(e.span) && r.expr is None,
            JSXExpr::Expr(e) => r.empty_span is None && r.expr is Some && lowers_expr(*e, *r.expr->Some_0),
        },
{
    match expr {
        JSXExpr::JSXEmptyExpr(e) => JSXExprFields { empty_span: Some(e.span), expr: None },
        JSXExpr::Expr(e) => JSXExprFields { empty_span: None, expr: Some(Arc::new(lower_expr(*e))) },
    }
}

/// The record of a JSX element name; a member name becomes its own record.
pub fn conv_jsx_element_name(name: JSXElementName) -> (r: JSXElementNameFields)
    ensures
        match name {
            JSXElementName::Ident(i) => {
                &&& r.ident == Some(i)
                &&& r.jsx_member_expr is None
                &&& r.jsx_namespaced_name is None
            },
            JSXElementName::JSXMemberExpr(m) => {
                &&& r.ident is None
                &&& r.jsx_member_expr is Some
                &&& r.jsx_member_expr->Some_0.span == m.span
                &&& r.jsx_member_expr->Some_0.prop == m.prop
                &&& match m.obj {
                    JSXObject::JSXMemberExpr(o) => {
                        &&& r.jsx_member_expr->Some_0.obj.jsx_member_expr == Some(o)
                        &&& r.jsx_member_expr->Some_0.obj.ident is None
                    },
                    JSXObject::Ident(o) => {
                        &&& r.jsx_member_expr->Some_0.obj.jsx_member_expr is None
                        &&& r.jsx_member_expr->Some_0.obj.ident == Some(o)
                    },
                }
                &&& r.jsx_namespaced_name is None
            },
            JSXElementName::JSXNamespacedName(n) => {
                &&& r.ident is None
                &&& r.jsx_member_expr is None
                &&& r.jsx_namespaced_name == Some(n)
            },
        },
{
    match name {
        JSXElementName::Ident(i) => JSXElementNameFields { ident: Some(i), jsx_member_expr: None, jsx_namespaced_name: None },
        JSXElementName::JSXMemberExpr(m) => JSXElementNameFields {
            ident: None,
            jsx_member_expr: Some(conv_jsx_member_expr_data(m)),
            jsx_namespaced_name: None,
        },
        JSXElementName::JSXNamespacedName(n) => JSXElementNameFields {
            ident: None,
            jsx_member_expr: None,
            jsx_namespaced_name: Some(n),
        },
    }
}

/// The record of a JSX attribute name.
pub fn conv_jsx_attr_name(name: JSXAttrName) -> (r: JSXAttrNameFields)
    ensures
        match name {
            JSXAttrName::Ident(i) => r.ident == Some(i) && r.jsx_namespaced_name is None,
            JSXAttrName::JSXNamespacedName(n) => r.ident is None && r.jsx_namespaced_name == Some(n),
        },
{
    match name {
        JSXAttrName::Ident(i) => JSXAttrNameFields { ident: Some(i), jsx_namespaced_name: None },
        JSXAttrName::JSXNamespacedName(n) => JSXAttrNameFields { ident: None, jsx_namespaced_name: Some(n) },
    }
}

// ---------------------------------------------------------------------
// Loop heads and accessor keys
// ---------------------------------------------------------------------

/// The record of a `for` initializer; the declaration or expression is
/// lowered.
pub fn conv_var_decl_or_expr(node: VarDeclOrExpr) -> (r: VarDeclOrExprFields)
    ensures
        match node {
            VarDeclOrExpr::VarDecl(v) => r.var_decl is Some && lowers_var_decl(*v, r.var_decl->Some_0) && r.expr is None,
            VarDeclOrExpr::Expr(e) => r.var_decl is None && r.expr is Some && lowers_expr(*e, *r.expr->Some_0),
        },
{
    match node {
        VarDeclOrExpr::VarDecl(v) => VarDeclOrExprFields { var_decl: Some(lower_var_decl(*v)), expr: None },
        VarDeclOrExpr::Expr(e) => VarDeclOrExprFields { var_decl: None, expr: Some(Arc::new(lower_expr(*e))) },
    }
}

/// The record of the left side of `for ... in` or `for ... of`; the
/// declaration or pattern is lowered.
pub fn conv_for_head(node: ForHead) -> (r: ForHeadFields)
    ensures
        match node {
            ForHead::VarDecl(v) => {
                &&& r.var_decl is Some
                &&& lowers_var_decl(*v, r.var_decl->Some_0)
                &&& r.using_decl is None
                &&& r.pat is None
            },
            ForHead::UsingDecl(u) => {
                &&& r.var_decl is None
                &&& r.using_decl is Some
                &&& lowers_using_decl(*u, r.using_decl->Some_0)
                &&& r.pat is None
            },
            ForHead::Pat(p) => {
                &&& r.var_decl is None
                &&& r.using_decl is None
                &&& r.pat is Some
                &&& lowers_pat(*p, *r.pat->Some_0)
            },
        },
{
    match node {
        ForHead::VarDecl(v) => ForHeadFields { var_decl: Some(lower_var_decl(*v)), using_decl: None, pat: None },
        ForHead::UsingDecl(u) => ForHeadFields { var_decl: None, using_decl: Some(lower_using_decl(*u)), pat: None },
        ForHead::Pat(p) => ForHeadFields { var_decl: None, using_decl: None, pat: Some(Arc::new(lower_pat(*p))) },
    }
}

/// The record of a lowered auto accessor key; the key itself is left as
/// it is, and a public key is shared, not copied.
pub fn wrap_key_data(data: &KeyData) -> (r: KeyFields)
    ensures
        match *data {
            KeyData::Private(p) => r.private == Some(p) && r.public is None,
            KeyData::Public(n) => r.private is None && r.public == Some(n),
        },
{
    match data {
        KeyData::Private(p) => KeyFields { private: Some(PrivateName { span: p.span, name: p.name.clone() }), public: None },
        KeyData::Public(n) => KeyFields { private: None, public: Some(Arc::clone(n)) },
    }
}

} // verus!
