use pyswc::ast::common::{Ident, IdentName, Span};
use pyswc::ast::expr::{
    ArrayLit, BinExpr, CallExpr, Callee, Expr, ExprOrSpread, MemberExpr, MemberProp, NewExpr, SeqExpr, Tpl,
    TplElement,
};
use pyswc::ast::lit::{Lit, Number};
use pyswc::ast::typescript::{TsKeywordType, TsType, TsUnionOrIntersectionType, TsUnionType};
use pyswc::enums::{BinaryOp, TsKeywordTypeKind};
use pyswc::expr::{lower_expr, lower_tpl, ExprData};
use pyswc::typeinfo::{lower_tstype, TsTypeData};

fn sp(lo: u32, hi: u32) -> Span {
    Span { lo, hi }
}

fn ident(name: &str, lo: u32) -> Ident {
    Ident { span: sp(lo, lo + name.len() as u32), ctxt: 0, sym: name.to_string(), optional: false }
}

fn ident_expr(name: &str, lo: u32) -> Box<Expr> {
    Box::new(Expr::Ident(ident(name, lo)))
}

fn num_expr(bits: u64, lo: u32) -> Box<Expr> {
    Box::new(Expr::Lit(Lit::Num(Number { span: sp(lo, lo + 1), value_bits: bits, raw: Some("1".to_string()) })))
}

fn arg(e: Box<Expr>, spread: Option<Span>) -> ExprOrSpread {
    ExprOrSpread { spread, expr: e }
}

#[test]
fn binary_expression_keeps_operator_span_and_operands() {
    let e = Expr::Bin(BinExpr { span: sp(0, 5), op: BinaryOp::Add, left: ident_expr("a", 0), right: num_expr(1, 4) });
    match lower_expr(e) {
        ExprData::Bin(b) => {
            assert_eq!(b.span, sp(0, 5));
            assert_eq!(b.op, BinaryOp::Add);
            assert_eq!(*b.left, ExprData::Ident(ident("a", 0)));
            match &*b.right {
                ExprData::Lit(Lit::Num(n)) => assert_eq!(n.value_bits, 1),
                other => panic!("unexpected right operand {:?}", other),
            }
        },
        other => panic!("unexpected lowering {:?}", other),
    }
}

#[test]
fn array_literal_keeps_holes_and_drops_spread_markers() {
    let e = Expr::Array(ArrayLit {
        span: sp(0, 12),
        elems: vec![Some(arg(ident_expr("a", 1), None)), None, Some(arg(ident_expr("b", 9), Some(sp(6, 9))))],
    });
    match lower_expr(e) {
        ExprData::Array(a) => {
            assert_eq!(a.span, sp(0, 12));
            assert_eq!(a.elems.len(), 3);
            assert_eq!(*a.elems[0].clone().unwrap(), ExprData::Ident(ident("a", 1)));
            assert!(a.elems[1].is_none());
            assert_eq!(*a.elems[2].clone().unwrap(), ExprData::Ident(ident("b", 9)));
        },
        other => panic!("unexpected lowering {:?}", other),
    }
}

#[test]
fn call_arguments_lose_spread_and_keep_order() {
    let e = Expr::Call(CallExpr {
        span: sp(0, 10),
        ctxt: 3,
        callee: Callee::Expr(ident_expr("f", 0)),
        args: vec![arg(ident_expr("x", 2), None), arg(ident_expr("y", 8), Some(sp(5, 8)))],
        type_args: None,
    });
    match lower_expr(e) {
        ExprData::Call(c) => {
            assert_eq!(c.ctxt, 3);
            assert_eq!(c.callee, Callee::Expr(ident_expr("f", 0)));
            assert_eq!(c.args.len(), 2);
            assert_eq!(*c.args[0], ExprData::Ident(ident("x", 2)));
            assert_eq!(*c.args[1], ExprData::Ident(ident("y", 8)));
            assert!(c.type_args.is_none());
        },
        other => panic!("unexpected lowering {:?}", other),
    }
}

#[test]
fn new_arguments_keep_spread_markers() {
    let e = Expr::New(NewExpr {
        span: sp(0, 14),
        ctxt: 0,
        callee: ident_expr("C", 4),
        args: Some(vec![arg(ident_expr("xs", 9), Some(sp(6, 9)))]),
        type_args: None,
    });
    match lower_expr(e) {
        ExprData::New(n) => {
            assert_eq!(*n.callee, ExprData::Ident(ident("C", 4)));
            let args = n.args.expect("arguments");
            assert_eq!(args.len(), 1);
            assert_eq!(args[0].spread, Some(sp(6, 9)));
            assert_eq!(*args[0].expr, ExprData::Ident(ident("xs", 9)));
        },
        other => panic!("unexpected lowering {:?}", other),
    }
    let bare = Expr::New(NewExpr { span: sp(0, 5), ctxt: 0, callee: ident_expr("C", 4), args: None, type_args: None });
    match lower_expr(bare) {
        ExprData::New(n) => assert!(n.args.is_none()),
        other => panic!("unexpected lowering {:?}", other),
    }
}

#[test]
fn member_access_lowers_object_and_keeps_property() {
    let prop = MemberProp::Ident(IdentName { span: sp(2, 3), sym: "b".to_string() });
    let e = Expr::Member(MemberExpr { span: sp(0, 3), obj: ident_expr("a", 0), prop });
    match lower_expr(e) {
        ExprData::Member(m) => {
            assert_eq!(*m.obj, ExprData::Ident(ident("a", 0)));
            assert_eq!(m.prop, MemberProp::Ident(IdentName { span: sp(2, 3), sym: "b".to_string() }));
        },
        other => panic!("unexpected lowering {:?}", other),
    }
}

#[test]
fn sequence_keeps_every_expression_in_order() {
    let e = Expr::Sequence(SeqExpr { span: sp(0, 7), exprs: vec![ident_expr("a", 0), ident_expr("b", 3), ident_expr("c", 6)] });
    match lower_expr(e) {
        ExprData::Sequence(s) => {
            assert_eq!(s.exprs.len(), 3);
            assert_eq!(*s.exprs[0], ExprData::Ident(ident("a", 0)));
            assert_eq!(*s.exprs[1], ExprData::Ident(ident("b", 3)));
            assert_eq!(*s.exprs[2], ExprData::Ident(ident("c", 6)));
        },
        other => panic!("unexpected lowering {:?}", other),
    }
}

#[test]
fn template_keeps_text_parts_and_lowers_expressions() {
    let quasi = |lo: u32, raw: &str, tail: bool| TplElement {
        span: sp(lo, lo + raw.len() as u32),
        tail,
        cooked: Some(raw.to_string()),
        raw: raw.to_string(),
    };
    let t = Tpl { span: sp(0, 12), exprs: vec![ident_expr("x", 6)], quasis: vec![quasi(1, "a ", false), quasi(8, " b", true)] };
    let d = lower_tpl(t);
    assert_eq!(d.span, sp(0, 12));
    assert_eq!(d.exprs.len(), 1);
    assert_eq!(*d.exprs[0], ExprData::Ident(ident("x", 6)));
    assert_eq!(d.quasis, vec![quasi(1, "a ", false), quasi(8, " b", true)]);
}

#[test]
fn union_type_members_keep_their_order() {
    let kw = |lo: u32, kind: TsKeywordTypeKind| Box::new(TsType::TsKeywordType(TsKeywordType { span: sp(lo, lo + 6), kind }));
    let t = TsType::TsUnionOrIntersectionType(TsUnionOrIntersectionType::TsUnionType(TsUnionType {
        span: sp(0, 15),
        types: vec![kw(0, TsKeywordTypeKind::TsStringKeyword), kw(9, TsKeywordTypeKind::TsNumberKeyword)],
    }));
    match lower_tstype(t) {
        TsTypeData::UnionType(u) => {
            assert_eq!(u.span, sp(0, 15));
            assert_eq!(u.types.len(), 2);
            assert_eq!(*u.types[0], TsTypeData::KeywordType(TsKeywordType { span: sp(0, 6), kind: TsKeywordTypeKind::TsStringKeyword }));
            assert_eq!(*u.types[1], TsTypeData::KeywordType(TsKeywordType { span: sp(9, 15), kind: TsKeywordTypeKind::TsNumberKeyword }));
        },
        other => panic!("unexpected lowering {:?}", other),
    }
}

#[test]
fn cloned_expression_equals_the_original() {
    let e = Expr::Bin(BinExpr { span: sp(0, 5), op: BinaryOp::Mul, left: ident_expr("a", 0), right: num_expr(2, 4) });
    assert_eq!(e.clone(), e);
}
