use std::sync::Arc;

use pyswc::ast::common::{BindingIdent, Ident, IdentName, PrivateName, Span};
use pyswc::ast::decl::{VarDecl, VarDeclarator};
use pyswc::ast::expr::{Callee, Expr, Import, MemberProp, Super, SuperProp};
use pyswc::ast::jsx::{JSXAttrName, JSXElementName, JSXExpr, JSXEmptyExpr, JSXMemberExpr, JSXNamespacedName, JSXObject};
use pyswc::ast::lit::{BigInt, BigIntValue, Bool, JSXText, Lit, Null, Number, Regex, Str};
use pyswc::ast::module_decl::ModuleExportName;
use pyswc::ast::pat::Pat;
use pyswc::ast::prop::ComputedPropName;
use pyswc::ast::stmt::{ForHead, VarDeclOrExpr};
use pyswc::ast::typescript::{TsEntityName, TsExternalModuleRef, TsModuleName, TsModuleRef, TsQualifiedName};
use pyswc::choice::{
    conv_callee, conv_for_head, conv_jsx_attr_name, conv_jsx_element_name, conv_jsx_expr, conv_jsx_object,
    conv_member_prop, conv_module_export_name, conv_super_prop, conv_ts_module_name, conv_ts_module_ref,
    conv_tsentityname, conv_var_decl_or_expr, wrap_key_data,
};
use pyswc::class::KeyData;
use pyswc::enums::{ImportPhase, VarDeclKind};
use pyswc::expr::ExprData;
use pyswc::pat::PatData;
use pyswc::prop::PropNameData;
use pyswc::script::JavaScriptFile;

fn sp(lo: u32, hi: u32) -> Span {
    Span { lo, hi }
}

fn ident(name: &str, lo: u32) -> Ident {
    Ident { span: sp(lo, lo + name.len() as u32), ctxt: 0, sym: name.to_string(), optional: false }
}

fn ident_name(name: &str, lo: u32) -> IdentName {
    IdentName { span: sp(lo, lo + name.len() as u32), sym: name.to_string() }
}

fn ident_expr(name: &str, lo: u32) -> Box<Expr> {
    Box::new(Expr::Ident(ident(name, lo)))
}

fn str_lit(value: &str, lo: u32) -> Str {
    Str { span: sp(lo, lo + value.len() as u32 + 2), value: value.to_string(), raw: None }
}

fn var_decl(name: &str) -> Box<VarDecl> {
    Box::new(VarDecl {
        span: sp(0, 10),
        ctxt: 0,
        kind: VarDeclKind::Const,
        declare: false,
        decls: vec![VarDeclarator { span: sp(6, 7), name: Pat::Ident(BindingIdent { id: ident(name, 6), type_ann: None }), init: None, definite: false }],
    })
}

#[test]
fn member_property_sets_exactly_one_field() {
    let r = conv_member_prop(MemberProp::Ident(ident_name("a", 2)));
    assert_eq!((r.ident, r.private_name, r.computed), (Some(ident_name("a", 2)), None, None));
    let n = PrivateName { span: sp(2, 4), name: "p".to_string() };
    let r = conv_member_prop(MemberProp::PrivateName(PrivateName { span: sp(2, 4), name: "p".to_string() }));
    assert_eq!((r.ident, r.private_name, r.computed), (None, Some(n), None));
    let r = conv_member_prop(MemberProp::Computed(ComputedPropName { span: sp(1, 4), expr: ident_expr("k", 2) }));
    assert!(r.ident.is_none() && r.private_name.is_none());
    let c = r.computed.expect("computed property");
    assert_eq!(c.span, sp(1, 4));
    assert_eq!(*c.expr, ExprData::Ident(ident("k", 2)));
}

#[test]
fn super_property_sets_exactly_one_field() {
    let r = conv_super_prop(SuperProp::Ident(ident_name("m", 6)));
    assert_eq!(r.ident, Some(ident_name("m", 6)));
    assert!(r.computed.is_none());
    let r = conv_super_prop(SuperProp::Computed(ComputedPropName { span: sp(5, 8), expr: ident_expr("k", 6) }));
    assert!(r.ident.is_none());
    assert_eq!(*r.computed.expect("computed").expr, ExprData::Ident(ident("k", 6)));
}

#[test]
fn callee_record_distinguishes_super_import_and_expression() {
    let r = conv_callee(Callee::Super(Super { span: sp(0, 5) }));
    assert_eq!((r.span, r.is_super, r.phase), (Some(sp(0, 5)), true, None));
    assert!(r.expr.is_none());
    let r = conv_callee(Callee::Import(Import { span: sp(0, 6), phase: ImportPhase::Defer }));
    assert_eq!((r.span, r.is_super, r.phase), (Some(sp(0, 6)), false, Some(ImportPhase::Defer)));
    assert!(r.expr.is_none());
    let r = conv_callee(Callee::Expr(ident_expr("f", 0)));
    assert_eq!((r.span, r.is_super, r.phase), (None, false, None));
    assert_eq!(*r.expr.expect("callee expression"), ExprData::Ident(ident("f", 0)));
}

#[test]
fn entity_and_module_names_set_one_alternative() {
    let r = conv_tsentityname(TsEntityName::Ident(ident("A", 0)));
    assert_eq!((r.ident, r.qualified_name), (Some(ident("A", 0)), None));
    let q = || TsQualifiedName { span: sp(0, 3), left: TsEntityName::Ident(ident("A", 0)), right: ident_name("B", 2) };
    let r = conv_tsentityname(TsEntityName::TsQualifiedName(Box::new(q())));
    assert_eq!((r.ident, r.qualified_name), (None, Some(q())));
    let r = conv_ts_module_name(TsModuleName::Str(str_lit("m", 7)));
    assert_eq!((r.ident, r.str_span, r.str_value), (None, Some(sp(7, 10)), Some("m".to_string())));
    let r = conv_ts_module_name(TsModuleName::Ident(ident("N", 10)));
    assert_eq!((r.ident, r.str_span, r.str_value), (Some(ident("N", 10)), None, None));
    let r = conv_module_export_name(ModuleExportName::Str(str_lit("x y", 9)));
    assert_eq!((r.ident, r.str_span, r.str_value), (None, Some(sp(9, 14)), Some("x y".to_string())));
    let r = conv_module_export_name(ModuleExportName::Ident(ident("x", 9)));
    assert_eq!((r.ident, r.str_span, r.str_value), (Some(ident("x", 9)), None, None));
}

#[test]
fn module_reference_record() {
    let r = conv_ts_module_ref(TsModuleRef::TsEntityName(TsEntityName::Ident(ident("M", 12))));
    assert!(r.external_module_ref.is_none());
    assert_eq!(r.entity_name.expect("entity name").ident, Some(ident("M", 12)));
    let ext = || TsExternalModuleRef { span: sp(12, 26), expr: str_lit("mod", 20) };
    let r = conv_ts_module_ref(TsModuleRef::TsExternalModuleRef(ext()));
    assert!(r.entity_name.is_none());
    assert_eq!(r.external_module_ref, Some(ext()));
}

#[test]
fn jsx_names_and_containers() {
    let member = || JSXMemberExpr { span: sp(1, 4), obj: JSXObject::Ident(ident("a", 1)), prop: ident_name("b", 3) };
    let r = conv_jsx_object(JSXObject::JSXMemberExpr(Box::new(member())));
    assert_eq!((r.jsx_member_expr, r.ident), (Some(Box::new(member())), None));
    let r = conv_jsx_element_name(JSXElementName::JSXMemberExpr(member()));
    assert!(r.ident.is_none() && r.jsx_namespaced_name.is_none());
    let m = r.jsx_member_expr.expect("member name");
    assert_eq!((m.span, m.prop), (sp(1, 4), ident_name("b", 3)));
    assert_eq!((m.obj.jsx_member_expr, m.obj.ident), (None, Some(ident("a", 1))));
    let ns = || JSXNamespacedName { span: sp(1, 6), ns: ident_name("svg", 1), name: ident_name("g", 5) };
    let r = conv_jsx_element_name(JSXElementName::JSXNamespacedName(ns()));
    assert_eq!(r.jsx_namespaced_name, Some(ns()));
    assert!(r.ident.is_none() && r.jsx_member_expr.is_none());
    let r = conv_jsx_attr_name(JSXAttrName::Ident(ident_name("id", 3)));
    assert_eq!((r.ident, r.jsx_namespaced_name), (Some(ident_name("id", 3)), None));
    let r = conv_jsx_expr(JSXExpr::JSXEmptyExpr(JSXEmptyExpr { span: sp(4, 4) }));
    assert_eq!(r.empty_span, Some(sp(4, 4)));
    assert!(r.expr.is_none());
    let r = conv_jsx_expr(JSXExpr::Expr(ident_expr("v", 5)));
    assert!(r.empty_span.is_none());
    assert_eq!(*r.expr.expect("expression"), ExprData::Ident(ident("v", 5)));
}

#[test]
fn loop_heads_lower_their_declaration_or_pattern() {
    let r = conv_for_head(ForHead::VarDecl(var_decl("x")));
    assert!(r.using_decl.is_none() && r.pat.is_none());
    let v = r.var_decl.expect("declaration");
    assert_eq!(v.kind, VarDeclKind::Const);
    assert_eq!(*v.decls[0].name, PatData::Ident(BindingIdent { id: ident("x", 6), type_ann: None }));
    let r = conv_for_head(ForHead::Pat(Box::new(Pat::Ident(BindingIdent { id: ident("y", 5), type_ann: None }))));
    assert!(r.var_decl.is_none() && r.using_decl.is_none());
    assert_eq!(*r.pat.expect("pattern"), PatData::Ident(BindingIdent { id: ident("y", 5), type_ann: None }));
    let r = conv_var_decl_or_expr(VarDeclOrExpr::Expr(ident_expr("i", 5)));
    assert!(r.var_decl.is_none());
    assert_eq!(*r.expr.expect("expression"), ExprData::Ident(ident("i", 5)));
    let r = conv_var_decl_or_expr(VarDeclOrExpr::VarDecl(var_decl("j")));
    assert!(r.expr.is_none());
    assert_eq!(r.var_decl.expect("declaration").decls.len(), 1);
}

#[test]
fn accessor_key_record_shares_the_public_name() {
    let name = Arc::new(PropNameData::Ident(ident_name("k", 9)));
    let r = wrap_key_data(&KeyData::Public(Arc::clone(&name)));
    assert!(r.private.is_none());
    assert!(Arc::ptr_eq(&r.public.expect("public key"), &name));
    let r = wrap_key_data(&KeyData::Private(PrivateName { span: sp(9, 11), name: "k".to_string() }));
    assert_eq!(r.private, Some(PrivateName { span: sp(9, 11), name: "k".to_string() }));
    assert!(r.public.is_none());
}

#[test]
fn every_literal_answers_exactly_one_accessor() {
    let lits = vec![
        Lit::Str(str_lit("s", 0)),
        Lit::Bool(Bool { span: sp(0, 4), value: true }),
        Lit::Null(Null { span: sp(0, 4) }),
        Lit::Num(Number { span: sp(0, 3), value_bits: 1.5f64.to_bits(), raw: None }),
        Lit::BigInt(BigInt { span: sp(0, 3), value: Box::new(BigIntValue { negative: true, digits: vec![7, 1] }), raw: None }),
        Lit::Regex(Regex { span: sp(0, 5), exp: "a+".to_string(), flags: "g".to_string() }),
        Lit::JSXText(JSXText { span: sp(0, 2), value: "hi".to_string(), raw: "hi".to_string() }),
    ];
    for l in &lits {
        let answers = [
            l.regex().is_some(),
            l.string().is_some(),
            l.bool().is_some(),
            l.jsxtext().is_some(),
            l.is_null(),
            l.float_bits().is_some(),
            l.bigint().is_some(),
        ];
        assert_eq!(answers.iter().filter(|a| **a).count(), 1);
    }
    assert_eq!(lits[0].string(), Some("s".to_string()));
    assert_eq!(lits[1].bool(), Some(true));
    assert!(lits[2].is_null());
    assert_eq!(lits[3].float_bits().map(f64::from_bits), Some(1.5));
    assert_eq!(lits[4].bigint(), Some(BigIntValue { negative: true, digits: vec![7, 1] }));
    assert_eq!(lits[5].regex(), Some("a+".to_string()));
    assert_eq!(lits[6].jsxtext(), Some("hi".to_string()));
}

#[test]
fn javascript_file_accepts_a_module() {
    let src = b"import x from 'y';\nexport const z = x + 1;\n".to_vec();
    let file = JavaScriptFile::new(&src);
    assert!(file.is_some());
}

#[test]
fn javascript_file_rejects_bad_syntax() {
    let src = b"let = ;".to_vec();
    assert!(JavaScriptFile::new(&src).is_none());
}

#[test]
fn javascript_file_rejects_invalid_utf8() {
    let src = vec![0x6c, 0x65, 0x74, 0x20, 0xff, 0xfe, 0x3b];
    assert!(JavaScriptFile::new(&src).is_none());
}

#[test]
fn javascript_file_accepts_empty_source() {
    assert!(JavaScriptFile::new(&Vec::new()).is_some());
}
