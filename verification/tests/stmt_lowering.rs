use pyswc::ast::class::{Class, ClassMember, Constructor, StaticBlock};
use pyswc::ast::common::{BindingIdent, Ident, IdentName, Span};
use pyswc::ast::decl::{Decl, VarDecl, VarDeclarator};
use pyswc::ast::expr::{Expr, ExprOrSpread};
use pyswc::ast::function::ParamOrTsParamProp;
use pyswc::ast::lit::Str;
use pyswc::ast::pat::{ArrayPat, AssignPat, KeyValuePatProp, ObjectPat, ObjectPatProp, Pat, RestPat};
use pyswc::ast::prop::PropName;
use pyswc::ast::stmt::{
    BlockStmt, BreakStmt, CatchClause, EmptyStmt, ExprStmt, ForStmt, IfStmt, Stmt, SwitchCase, SwitchStmt, TryStmt,
    VarDeclOrExpr,
};
use pyswc::ast::typescript::{
    TsEnumDecl, TsEnumMember, TsEnumMemberId, TsFnParam, TsIndexSignature, TsParamProp, TsParamPropParam,
};
use pyswc::class::{lower_class, ClassMemberData, ParamOrTsParamPropData, TsParamPropParamData};
use pyswc::decl::{lower_decl, DeclData};
use pyswc::enums::{Accessibility, VarDeclKind};
use pyswc::expr::ExprData;
use pyswc::pat::{conv_fn_param, lower_pat, ObjectPatPropData, PatData};
use pyswc::stmts::{lower_stmt, StmtData};

fn sp(lo: u32, hi: u32) -> Span {
    Span { lo, hi }
}

fn ident(name: &str, lo: u32) -> Ident {
    Ident { span: sp(lo, lo + name.len() as u32), ctxt: 0, sym: name.to_string(), optional: false }
}

fn binding(name: &str, lo: u32) -> BindingIdent {
    BindingIdent { id: ident(name, lo), type_ann: None }
}

fn ident_expr(name: &str, lo: u32) -> Box<Expr> {
    Box::new(Expr::Ident(ident(name, lo)))
}

fn expr_stmt(name: &str, lo: u32) -> Stmt {
    Stmt::Expr(ExprStmt { span: sp(lo, lo + name.len() as u32 + 1), expr: ident_expr(name, lo) })
}

fn block(lo: u32, stmts: Vec<Stmt>) -> BlockStmt {
    BlockStmt { span: sp(lo, lo + 10), ctxt: 1, stmts }
}

fn key(name: &str, lo: u32) -> PropName {
    PropName::Ident(IdentName { span: sp(lo, lo + name.len() as u32), sym: name.to_string() })
}

#[test]
fn if_statement_lowers_test_and_both_branches() {
    let s = Stmt::If(IfStmt {
        span: sp(0, 20),
        test: ident_expr("c", 4),
        cons: Box::new(expr_stmt("a", 7)),
        alt: Some(Box::new(Stmt::Empty(EmptyStmt { span: sp(19, 20) }))),
    });
    match lower_stmt(s) {
        StmtData::If(i) => {
            assert_eq!(i.span, sp(0, 20));
            assert_eq!(*i.test, ExprData::Ident(ident("c", 4)));
            match &*i.cons {
                StmtData::Expr(e) => assert_eq!(*e.expr, ExprData::Ident(ident("a", 7))),
                other => panic!("unexpected branch {:?}", other),
            }
            assert_eq!(*i.alt.expect("else branch"), StmtData::Empty(EmptyStmt { span: sp(19, 20) }));
        },
        other => panic!("unexpected lowering {:?}", other),
    }
}

#[test]
fn for_statement_keeps_its_initializer_as_parsed() {
    let init = VarDeclOrExpr::Expr(ident_expr("i", 5));
    let s = Stmt::For(ForStmt {
        span: sp(0, 20),
        init: Some(init),
        test: None,
        update: Some(ident_expr("j", 9)),
        body: Box::new(Stmt::Break(BreakStmt { span: sp(12, 18), label: None })),
    });
    match lower_stmt(s) {
        StmtData::For(f) => {
            assert_eq!(f.init, Some(VarDeclOrExpr::Expr(ident_expr("i", 5))));
            assert!(f.test.is_none());
            assert_eq!(*f.update.expect("update"), ExprData::Ident(ident("j", 9)));
            assert_eq!(*f.body, StmtData::Break(BreakStmt { span: sp(12, 18), label: None }));
        },
        other => panic!("unexpected lowering {:?}", other),
    }
}

#[test]
fn switch_cases_keep_order_and_default() {
    let s = Stmt::Switch(SwitchStmt {
        span: sp(0, 40),
        body_ctxt: 2,
        discriminant: ident_expr("x", 8),
        cases: vec![
            SwitchCase { span: sp(12, 20), test: Some(ident_expr("a", 17)), cons: vec![expr_stmt("f", 20)] },
            SwitchCase { span: sp(24, 38), test: None, cons: vec![] },
        ],
    });
    match lower_stmt(s) {
        StmtData::Switch(w) => {
            assert_eq!(w.body_ctxt, 2);
            assert_eq!(w.cases.len(), 2);
            assert_eq!(*w.cases[0].test.clone().expect("case test"), ExprData::Ident(ident("a", 17)));
            assert_eq!(w.cases[0].cons.len(), 1);
            assert!(w.cases[1].test.is_none());
            assert!(w.cases[1].cons.is_empty());
        },
        other => panic!("unexpected lowering {:?}", other),
    }
}

#[test]
fn try_statement_lowers_handler_and_finalizer() {
    let s = Stmt::Try(Box::new(TryStmt {
        span: sp(0, 50),
        block: block(4, vec![expr_stmt("a", 6)]),
        handler: Some(CatchClause { span: sp(16, 30), param: Some(Pat::Ident(binding("e", 23))), body: block(26, vec![]) }),
        finalizer: Some(block(38, vec![expr_stmt("b", 40)])),
    }));
    match lower_stmt(s) {
        StmtData::Try(t) => {
            assert_eq!(t.block.stmts.len(), 1);
            let h = t.handler.expect("handler");
            assert_eq!(*h.param.clone().expect("catch parameter"), PatData::Ident(binding("e", 23)));
            assert!(h.body.stmts.is_empty());
            assert_eq!(t.finalizer.expect("finalizer").stmts.len(), 1);
        },
        other => panic!("unexpected lowering {:?}", other),
    }
}

#[test]
fn variable_declaration_lowers_every_declarator() {
    let d = Decl::Var(Box::new(VarDecl {
        span: sp(0, 16),
        ctxt: 0,
        kind: VarDeclKind::Let,
        declare: false,
        decls: vec![
            VarDeclarator { span: sp(4, 9), name: Pat::Ident(binding("a", 4)), init: Some(ident_expr("b", 8)), definite: false },
            VarDeclarator { span: sp(11, 12), name: Pat::Ident(binding("c", 11)), init: None, definite: false },
        ],
    }));
    match lower_decl(d) {
        DeclData::Var(v) => {
            assert_eq!(v.kind, VarDeclKind::Let);
            assert_eq!(v.decls.len(), 2);
            assert_eq!(*v.decls[0].name, PatData::Ident(binding("a", 4)));
            assert_eq!(*v.decls[0].init.clone().expect("initializer"), ExprData::Ident(ident("b", 8)));
            assert_eq!(*v.decls[1].name, PatData::Ident(binding("c", 11)));
            assert!(v.decls[1].init.is_none());
        },
        other => panic!("unexpected lowering {:?}", other),
    }
}

#[test]
fn enum_declaration_keeps_member_names_and_lowers_initializers() {
    let name = Str { span: sp(10, 13), value: "b".to_string(), raw: Some("'b'".to_string()) };
    let d = Decl::TsEnum(Box::new(TsEnumDecl {
        span: sp(0, 30),
        declare: false,
        is_const: true,
        id: ident("E", 5),
        members: vec![
            TsEnumMember { span: sp(8, 9), id: TsEnumMemberId::Ident(ident("a", 8)), init: None },
            TsEnumMember { span: sp(10, 17), id: TsEnumMemberId::Str(name), init: Some(ident_expr("x", 16)) },
        ],
    }));
    match lower_decl(d) {
        DeclData::TsEnum(e) => {
            assert!(e.is_const);
            assert_eq!(e.members.len(), 2);
            assert_eq!(e.members[0].id_ident(), Some(ident("a", 8)));
            assert_eq!(e.members[0].id_str_span(), None);
            assert_eq!(e.members[0].id_str_value(), None);
            assert_eq!(e.members[1].id_ident(), None);
            assert_eq!(e.members[1].id_str_span(), Some(sp(10, 13)));
            assert_eq!(e.members[1].id_str_value(), Some("b".to_string()));
            assert_eq!(*e.members[1].init.clone().expect("initializer"), ExprData::Ident(ident("x", 16)));
        },
        other => panic!("unexpected lowering {:?}", other),
    }
}

#[test]
fn patterns_keep_holes_rest_and_defaults() {
    let p = Pat::Array(ArrayPat {
        span: sp(0, 20),
        elems: vec![
            Some(Pat::Ident(binding("a", 1))),
            None,
            Some(Pat::Assign(AssignPat { span: sp(6, 11), left: Box::new(Pat::Ident(binding("b", 6))), right: ident_expr("d", 10) })),
            Some(Pat::Rest(RestPat { span: sp(13, 19), dot3_token: sp(13, 16), arg: Box::new(Pat::Ident(binding("r", 16))), type_ann: None })),
        ],
        optional: false,
        type_ann: None,
    });
    match lower_pat(p) {
        PatData::Array(a) => {
            assert_eq!(a.elems.len(), 4);
            assert_eq!(*a.elems[0].clone().expect("first"), PatData::Ident(binding("a", 1)));
            assert!(a.elems[1].is_none());
            match &*a.elems[2].clone().expect("third") {
                PatData::Assign(x) => {
                    assert_eq!(*x.left, PatData::Ident(binding("b", 6)));
                    assert_eq!(*x.right, ExprData::Ident(ident("d", 10)));
                },
                other => panic!("unexpected element {:?}", other),
            }
            match &*a.elems[3].clone().expect("fourth") {
                PatData::Rest(r) => {
                    assert_eq!(r.dot3_token, sp(13, 16));
                    assert_eq!(*r.arg, PatData::Ident(binding("r", 16)));
                },
                other => panic!("unexpected element {:?}", other),
            }
        },
        other => panic!("unexpected lowering {:?}", other),
    }
}

#[test]
fn object_pattern_lowers_each_property() {
    let p = Pat::Object(ObjectPat {
        span: sp(0, 12),
        props: vec![ObjectPatProp::KeyValue(KeyValuePatProp { key: key("k", 2), value: Box::new(Pat::Ident(binding("v", 5))) })],
        optional: false,
        type_ann: None,
    });
    match lower_pat(p) {
        PatData::Object(o) => {
            assert_eq!(o.props.len(), 1);
            match &*o.props[0] {
                ObjectPatPropData::KeyValue(kv) => {
                    assert_eq!(kv.key, key("k", 2));
                    assert_eq!(*kv.value, PatData::Ident(binding("v", 5)));
                },
                other => panic!("unexpected property {:?}", other),
            }
        },
        other => panic!("unexpected lowering {:?}", other),
    }
}

#[test]
fn function_type_parameter_lowers_as_its_pattern() {
    let rest = || RestPat { span: sp(0, 7), dot3_token: sp(0, 3), arg: Box::new(Pat::Ident(binding("xs", 3))), type_ann: None };
    assert_eq!(conv_fn_param(TsFnParam::Rest(rest())), lower_pat(Pat::Rest(rest())));
    assert_eq!(conv_fn_param(TsFnParam::Ident(binding("x", 0))), lower_pat(Pat::Ident(binding("x", 0))));
}

#[test]
fn class_members_are_lowered_in_order() {
    let ctor = Constructor {
        span: sp(10, 40),
        ctxt: 0,
        key: key("constructor", 10),
        params: vec![ParamOrTsParamProp::TsParamProp(TsParamProp {
            span: sp(22, 38),
            decorators: vec![],
            accessibility: Some(Accessibility::Private),
            is_override: false,
            readonly: true,
            param: TsParamPropParam::Ident(binding("x", 39)),
        })],
        body: None,
        accessibility: None,
        is_optional: false,
    };
    let index = TsIndexSignature { params: vec![TsFnParam::Ident(binding("k", 44))], type_ann: None, readonly: false, is_static: false, span: sp(43, 60) };
    let c = Class {
        span: sp(0, 80),
        ctxt: 0,
        decorators: vec![],
        body: vec![
            ClassMember::Constructor(ctor),
            ClassMember::TsIndexSignature(index),
            ClassMember::StaticBlock(StaticBlock { span: sp(61, 79), body: block(68, vec![expr_stmt("s", 70)]) }),
        ],
        super_class: Some(ident_expr("Base", 16)),
        is_abstract: false,
        type_params: None,
        super_type_params: None,
        implements: vec![],
    };
    let d = lower_class(c);
    assert_eq!(d.body.len(), 3);
    assert_eq!(*d.super_class.clone().expect("super class"), ExprData::Ident(ident("Base", 16)));
    match &*d.body[0] {
        ClassMemberData::Constructor(k) => {
            assert_eq!(k.params.len(), 1);
            match &k.params[0] {
                ParamOrTsParamPropData::TsParamProp(p) => {
                    assert_eq!(p.accessibility, Some(Accessibility::Private));
                    assert!(p.readonly);
                    assert_eq!(p.param, TsParamPropParamData::Ident(binding("x", 39)));
                },
                other => panic!("unexpected parameter {:?}", other),
            }
        },
        other => panic!("unexpected member {:?}", other),
    }
    match &*d.body[1] {
        ClassMemberData::TsIndexSignature(s) => {
            assert_eq!(s.params.len(), 1);
            assert_eq!(*s.params[0], PatData::Ident(binding("k", 44)));
        },
        other => panic!("unexpected member {:?}", other),
    }
    match &*d.body[2] {
        ClassMemberData::StaticBlock(b) => assert_eq!(b.body.stmts.len(), 1),
        other => panic!("unexpected member {:?}", other),
    }
}

#[test]
fn spread_argument_record_is_built_from_expression() {
    let a = ExprOrSpread { spread: Some(sp(0, 3)), expr: ident_expr("z", 3) };
    let d = pyswc::prop::lower_expr_or_spread(a);
    assert_eq!(d.spread, Some(sp(0, 3)));
    assert_eq!(*d.expr, ExprData::Ident(ident("z", 3)));
}

#[test]
fn empty_block_and_empty_switch_lower_to_empty_lists() {
    match lower_stmt(Stmt::Block(block(0, vec![]))) {
        StmtData::Block(b) => {
            assert_eq!(b.span, sp(0, 10));
            assert_eq!(b.ctxt, 1);
            assert!(b.stmts.is_empty());
        },
        other => panic!("unexpected lowering {:?}", other),
    }
    let s = Stmt::Switch(SwitchStmt { span: sp(0, 12), body_ctxt: 0, discriminant: ident_expr("x", 8), cases: vec![] });
    match lower_stmt(s) {
        StmtData::Switch(w) => assert!(w.cases.is_empty()),
        other => panic!("unexpected lowering {:?}", other),
    }
}

#[test]
fn class_without_members_keeps_its_header() {
    let c = Class {
        span: sp(0, 9),
        ctxt: 4,
        decorators: vec![],
        body: vec![],
        super_class: None,
        is_abstract: true,
        type_params: None,
        super_type_params: None,
        implements: vec![],
    };
    let d = lower_class(c);
    assert_eq!((d.span, d.ctxt, d.is_abstract), (sp(0, 9), 4, true));
    assert!(d.body.is_empty() && d.decorators.is_empty() && d.super_class.is_none());
}
