use pyswc::ast::class::Decorator;
use pyswc::ast::common::{BindingIdent, Ident, IdentName, Span};
use pyswc::ast::expr::{ArrowExpr, ArrowFunctionBody, Expr, ObjectLit, PropOrSpread, SpreadElement};
use pyswc::ast::function::{Function, FunctionBody, Param};
use pyswc::ast::jsx::{
    JSXClosingFragment, JSXElement, JSXElementChild, JSXElementName, JSXFragment, JSXOpeningElement,
    JSXOpeningFragment,
};
use pyswc::ast::lit::JSXText;
use pyswc::ast::pat::Pat;
use pyswc::ast::prop::{GetterProp, KeyValueProp, Prop, PropName};
use pyswc::ast::stmt::{ReturnStmt, Stmt};
use pyswc::ast::typescript::TsThisParam;
use pyswc::expr::{lower_expr, ArrowFunctionBodyData, ExprData};
use pyswc::function::lower_function;
use pyswc::jsx::{lower_jsx_fragment, JSXElementChildData};
use pyswc::pat::PatData;
use pyswc::prop::{PropData, PropNameData, PropOrSpreadData};
use pyswc::stmts::StmtData;

fn sp(lo: u32, hi: u32) -> Span {
    Span { lo, hi }
}

fn ident(name: &str, lo: u32) -> Ident {
    Ident { span: sp(lo, lo + name.len() as u32), ctxt: 0, sym: name.to_string(), optional: false }
}

fn ident_expr(name: &str, lo: u32) -> Box<Expr> {
    Box::new(Expr::Ident(ident(name, lo)))
}

fn binding(name: &str, lo: u32) -> Pat {
    Pat::Ident(BindingIdent { id: ident(name, lo), type_ann: None })
}

fn function(lo: u32, params: Vec<Param>, stmts: Vec<Stmt>) -> Function {
    Function {
        this_param: Some(Box::new(TsThisParam { span: sp(lo + 1, lo + 5), this_span: sp(lo + 1, lo + 5), type_ann: None })),
        params,
        decorators: vec![],
        span: sp(lo, lo + 30),
        ctxt: 2,
        body: Some(FunctionBody { span: sp(lo + 10, lo + 30), stmts }),
        is_generator: false,
        is_async: true,
        type_params: None,
        return_type: None,
    }
}

#[test]
fn function_lowers_parameters_body_and_this_parameter() {
    let param = Param { span: sp(7, 8), decorators: vec![Decorator { span: sp(6, 7), expr: ident_expr("d", 6) }], pat: binding("a", 7) };
    let ret = Stmt::Return(ReturnStmt { span: sp(12, 21), arg: Some(ident_expr("a", 19)) });
    let d = lower_function(function(0, vec![param], vec![ret]));
    assert_eq!((d.span, d.ctxt, d.is_async, d.is_generator), (sp(0, 30), 2, true, false));
    let this = d.this_param.expect("this parameter");
    assert_eq!((this.span, this.this_span), (sp(1, 5), sp(1, 5)));
    assert!(this.type_ann.is_none());
    assert_eq!(d.params.len(), 1);
    assert_eq!(*d.params[0].pat, PatData::Ident(BindingIdent { id: ident("a", 7), type_ann: None }));
    assert_eq!(d.params[0].decorators.len(), 1);
    assert_eq!(*d.params[0].decorators[0].expr, ExprData::Ident(ident("d", 6)));
    let body = d.body.expect("body");
    assert_eq!(body.stmts.len(), 1);
    match &*body.stmts[0] {
        StmtData::Return(r) => assert_eq!(*r.arg.clone().expect("returned value"), ExprData::Ident(ident("a", 19))),
        other => panic!("unexpected statement {:?}", other),
    }
}

#[test]
fn arrow_function_with_expression_body() {
    let e = Expr::Arrow(ArrowExpr {
        span: sp(0, 11),
        ctxt: 0,
        params: vec![binding("x", 1)],
        body: Box::new(ArrowFunctionBody::Expr(ident_expr("x", 10))),
        is_async: false,
        is_generator: false,
        type_params: None,
        return_type: None,
    });
    match lower_expr(e) {
        ExprData::Arrow(a) => {
            assert_eq!(a.params.len(), 1);
            match &a.body {
                ArrowFunctionBodyData::Expr(x) => assert_eq!(**x, ExprData::Ident(ident("x", 10))),
                other => panic!("unexpected body {:?}", other),
            }
        },
        other => panic!("unexpected lowering {:?}", other),
    }
}

#[test]
fn object_literal_lowers_properties_and_spreads() {
    let key = |name: &str, lo: u32| PropName::Ident(IdentName { span: sp(lo, lo + name.len() as u32), sym: name.to_string() });
    let e = Expr::Object(ObjectLit {
        span: sp(0, 40),
        props: vec![
            PropOrSpread::Prop(Box::new(Prop::KeyValue(KeyValueProp { key: key("a", 2), value: ident_expr("b", 5) }))),
            PropOrSpread::Spread(SpreadElement { dot3_token: sp(8, 11), expr: ident_expr("rest", 11) }),
            PropOrSpread::Prop(Box::new(Prop::Getter(GetterProp { span: sp(17, 38), key: key("g", 21), function: Box::new(function(22, vec![], vec![])) }))),
        ],
    });
    match lower_expr(e) {
        ExprData::Object(o) => {
            assert_eq!(o.props.len(), 3);
            match &*o.props[0] {
                PropOrSpreadData::Prop(p) => match &**p {
                    PropData::KeyValue(kv) => {
                        assert_eq!(*kv.key, PropNameData::Ident(IdentName { span: sp(2, 3), sym: "a".to_string() }));
                        assert_eq!(*kv.value, ExprData::Ident(ident("b", 5)));
                    },
                    other => panic!("unexpected property {:?}", other),
                },
                other => panic!("unexpected property {:?}", other),
            }
            match &*o.props[1] {
                PropOrSpreadData::Spread(s) => {
                    assert_eq!(s.dot3_token, sp(8, 11));
                    assert_eq!(*s.expr, ExprData::Ident(ident("rest", 11)));
                },
                other => panic!("unexpected property {:?}", other),
            }
            match &*o.props[2] {
                PropOrSpreadData::Prop(p) => match &**p {
                    PropData::Getter(g) => assert_eq!(g.function.span, sp(22, 52)),
                    other => panic!("unexpected property {:?}", other),
                },
                other => panic!("unexpected property {:?}", other),
            }
        },
        other => panic!("unexpected lowering {:?}", other),
    }
}

#[test]
fn jsx_fragment_lowers_nested_elements() {
    let text = JSXText { span: sp(2, 4), value: "hi".to_string(), raw: "hi".to_string() };
    let inner = JSXElement {
        span: sp(4, 10),
        opening: JSXOpeningElement { name: JSXElementName::Ident(ident("br", 5)), span: sp(4, 10), attrs: vec![], self_closing: true, type_args: None },
        children: vec![],
        closing: None,
    };
    let f = JSXFragment {
        span: sp(0, 13),
        opening: JSXOpeningFragment { span: sp(0, 2) },
        children: vec![JSXElementChild::JSXText(text), JSXElementChild::JSXElement(Box::new(inner))],
        closing: JSXClosingFragment { span: sp(10, 13) },
    };
    let d = lower_jsx_fragment(f);
    assert_eq!(d.span, sp(0, 13));
    assert_eq!(d.children.len(), 2);
    assert_eq!(*d.children[0], JSXElementChildData::Text(JSXText { span: sp(2, 4), value: "hi".to_string(), raw: "hi".to_string() }));
    match &*d.children[1] {
        JSXElementChildData::Element(e) => {
            assert!(e.children.is_empty());
            assert!(e.opening.self_closing);
            assert!(e.closing.is_none());
        },
        other => panic!("unexpected child {:?}", other),
    }
}

#[test]
fn cloned_function_equals_the_original() {
    let param = Param { span: sp(7, 8), decorators: vec![], pat: binding("a", 7) };
    let ret = Stmt::Return(ReturnStmt { span: sp(12, 21), arg: Some(ident_expr("a", 19)) });
    let f = function(0, vec![param], vec![ret]);
    let copy = f.clone();
    assert_eq!(copy, f);
    assert_eq!(lower_function(copy), lower_function(f));
}
