//! Object literal properties, property names and spread arguments in
//! lowered form.
use std::sync::Arc;
use vstd::prelude::*;

use crate::ast::common::{Ident, IdentName, Span};
use crate::ast::expr::{ExprOrSpread, PropOrSpread, SpreadElement};
use crate::ast::lit::{BigInt, Number, Str};
use crate::ast::prop::{ComputedPropName, Prop, PropName};
use crate::expr::{lower_expr, lowers_expr, ExprData};
use crate::function::{lower_function, lowers_function, FunctionData};

verus! {

/// `[expr]` as a property name.
#[derive(Clone, Debug, PartialEq, Eq)]
pub struct ComputedPropNameData {
    pub span: Span,
    pub expr: Arc<ExprData>,
}

/// A lowered property name.
#[derive(Clone, Debug, PartialEq, Eq)]
pub enum PropNameData {
    Ident(IdentName),
    Str(Str),
    Num(Number),
    Computed(ComputedPropNameData),
    BigInt(BigInt),
}

#[derive(Clone, Debug, PartialEq, Eq)]
pub struct KeyValuePropData {
    pub key: Arc<PropNameData>,
    pub value: Arc<ExprData>,
}

#[derive(Clone, Debug, PartialEq, Eq)]
pub struct AssignPropData {
    pub span: Span,
    pub key: Ident,
    pub value: Arc<ExprData>,
}

#[derive(Clone, Debug, PartialEq, Eq)]
pub struct GetterPropData {
    pub span: Span,
    pub key: Arc<PropNameData>,
    pub function: Arc<FunctionData>,
}

#[derive(Clone, Debug, PartialEq, Eq)]
pub struct SetterPropData {
    pub span: Span,
    pub key: Arc<PropNameData>,
    pub function: Arc<FunctionData>,
}

#[derive(Clone, Debug, PartialEq, Eq)]
pub struct MethodPropData {
    pub key: Arc<PropNameData>,
    pub function: Arc<FunctionData>,
}

/// A lowered property of an object literal.
#[derive(Clone, Debug, PartialEq, Eq)]
pub enum PropData {
    Shorthand(Ident),
    KeyValue(KeyValuePropData),
    Assign(AssignPropData),
    Getter(GetterPropData),
    Setter(SetterPropData),
    Method(MethodPropData),
}

/// `...expr`.
#[derive(Clone, Debug, PartialEq, Eq)]
pub struct SpreadElementData {
    pub dot3_token: Span,
    pub expr: Arc<ExprData>,
}

/// A property or a spread in an object literal.
#[derive(Clone, Debug, PartialEq, Eq)]
pub enum PropOrSpreadData {
    Spread(SpreadElementData),
    Prop(Arc<PropData>),
}

/// An argument, with the position of its `...` when it is spread.
#[derive(Clone, Debug, PartialEq, Eq)]
pub struct ExprOrSpreadData {
    pub spread: Option<Span>,
    pub expr: Arc<ExprData>,
}

// ---------------------------------------------------------------------
// What lowering produces
// ---------------------------------------------------------------------

/// `d` is the lowered form of the computed property name `c`.
pub open spec fn lowers_computed_propname(c: ComputedPropName, d: ComputedPropNameData) -> bool
    decreases c,
{
    d.span == c.span && lowers_expr(*c.expr, *d.expr)
}

/// `d` is the lowered form of the property name `p`: a computed name has
/// its expression lowered, every other name is kept.
pub open spec fn lowers_propname(p: PropName, d: PropNameData) -> bool
    decreases p,
{
    match p {
        PropName::Ident(x) => d == PropNameData::Ident(x),
        PropName::Str(x) => d == PropNameData::Str(x),
        PropName::Num(x) => d == PropNameData::Num(x),
        PropName::Computed(x) => d is Computed && lowers_computed_propname(x, d->Computed_0),
        PropName::BigInt(x) => d == PropNameData::BigInt(x),
    }
}

/// `d` is the lowered form of the property `p`.
pub open spec fn lowers_prop(p: Prop, d: PropData) -> bool
    decreases p,
{
    match p {
        Prop::Shorthand(x) => d == PropData::Shorthand(x),
        Prop::KeyValue(x) => match d {
            PropData::KeyValue(y) => lowers_propname(x.key, *y.key) && lowers_expr(*x.value, *y.value),
            _ => false,
        },
        Prop::Assign(x) => match d {
            PropData::Assign(y) => y.span == x.span && y.key == x.key && lowers_expr(*x.value, *y.value),
            _ => false,
        },
        Prop::Getter(x) => match d {
            PropData::Getter(y) => {
                &&& y.span == x.span
                &&& lowers_propname(x.key, *y.key)
                &&& lowers_function(*x.function, *y.function)
            },
            _ => false,
        },
        Prop::Setter(x) => match d {
            PropData::Setter(y) => {
                &&& y.span == x.span
                &&& lowers_propname(x.key, *y.key)
                &&& lowers_function(*x.function, *y.function)
            },
            _ => false,
        },
        Prop::Method(x) => match d {
            PropData::Method(y) => lowers_propname(x.key, *y.key) && lowers_function(*x.function, *y.function),
            _ => false,
        },
    }
}

/// `d` is the lowered form of the spread `s`.
pub open spec fn lowers_spread_element(s: SpreadElement, d: SpreadElementData) -> bool
    decreases s,
{
    d.dot3_token == s.dot3_token && lowers_expr(*s.expr, *d.expr)
}

/// `d` is the lowered form of the property or spread `p`.
pub open spec fn lowers_prop_or_spread(p: PropOrSpread, d: PropOrSpreadData) -> bool
    decreases p,
{
    match p {
        PropOrSpread::Spread(x) => d is Spread && lowers_spread_element(x, d->Spread_0),
        PropOrSpread::Prop(x) => d is Prop && lowers_prop(*x, *d->Prop_0),
    }
}

/// `d` is the lowered form of the argument `e`; it keeps the spread marker.
pub open spec fn lowers_expr_or_spread(e: ExprOrSpread, d: ExprOrSpreadData) -> bool
    decreases e,
{
    d.spread == e.spread && lowers_expr(*e.expr, *d.expr)
}

/// `d` is the lowered form of the argument list `e`.
pub open spec fn lowers_expr_or_spreads(e: Seq<ExprOrSpread>, d: Seq<ExprOrSpreadData>) -> bool
    decreases e,
{
    &&& d.len() == e.len()
    &&& forall|i: int| 0 <= i < e.len() ==> lowers_expr_or_spread(#[trigger] e[i], d[i])
}

/// `d` is the lowered form of the optional argument list `e`.
pub open spec fn lowers_opt_expr_or_spreads(e: Option<Vec<ExprOrSpread>>, d: Option<Vec<ExprOrSpreadData>>) -> bool
    decreases e,
{
    match e {
        None => d is None,
        Some(a) => d is Some && lowers_expr_or_spreads(a@, d->Some_0@),
    }
}

// ---------------------------------------------------------------------
// Lowering
// ---------------------------------------------------------------------

/// Lowers a property name.
pub fn lower_propname(p: PropName) -> (d: PropNameData)
    ensures
        lowers_propname(p, d),
    decreases p,
{
    match p {
        PropName::Ident(i) => PropNameData::Ident(i),
        PropName::Str(s) => PropNameData::Str(s),
        PropName::Num(n) => PropNameData::Num(n),
        PropName::Computed(c) => PropNameData::Computed(lower_computed_propname(c)),
        PropName::BigInt(b) => PropNameData::BigInt(b),
    }
}

/// Lowers a computed property name.
pub fn lower_computed_propname(c: ComputedPropName) -> (d: ComputedPropNameData)
    ensures
        lowers_computed_propname(c, d),
    decreases c,
{
    ComputedPropNameData { span: c.span, expr: Arc::new(lower_expr(*c.expr)) }
}

/// Lowers a property of an object literal.
pub fn lower_prop(p: Prop) -> (d: PropData)
    ensures
        lowers_prop(p, d),
    decreases p,
{
    match p {
        Prop::Shorthand(i) => PropData::Shorthand(i),
        Prop::KeyValue(kv) => PropData::KeyValue(
            KeyValuePropData { key: Arc::new(lower_propname(kv.key)), value: Arc::new(lower_expr(*kv.value)) },
        ),
        Prop::Assign(a) => PropData::Assign(AssignPropData { span: a.span, key: a.key, value: Arc::new(lower_expr(*a.value)) }),
        Prop::Getter(g) => PropData::Getter(
            GetterPropData {
                span: g.span,
                key: Arc::new(lower_propname(g.key)),
                function: Arc::new(lower_function(*g.function)),
            },
        ),
        Prop::Setter(st) => PropData::Setter(
            SetterPropData {
                span: st.span,
                key: Arc::new(lower_propname(st.key)),
                function: Arc::new(lower_function(*st.function)),
            },
        ),
        Prop::Method(m) => PropData::Method(
            MethodPropData { key: Arc::new(lower_propname(m.key)), function: Arc::new(lower_function(*m.function)) },
        ),
    }
}

/// Lowers a spread `...expr`.
pub fn lower_spread_element(s: SpreadElement) -> (d: SpreadElementData)
    ensures
        lowers_spread_element(s, d),
    decreases s,
{
    SpreadElementData { dot3_token: s.dot3_token, expr: Arc::new(lower_expr(*s.expr)) }
}

/// Lowers a property or a spread of an object literal.
pub fn lower_prop_or_spread(p: PropOrSpread) -> (d: PropOrSpreadData)
    ensures
        lowers_prop_or_spread(p, d),
    decreases p,
{
    match p {
        PropOrSpread::Spread(s) => PropOrSpreadData::Spread(lower_spread_element(s)),
        PropOrSpread::Prop(pr) => PropOrSpreadData::Prop(Arc::new(lower_prop(*pr))),
    }
}

/// Lowers an argument, keeping its spread marker.
pub fn lower_expr_or_spread(e: ExprOrSpread) -> (d: ExprOrSpreadData)
    ensures
        lowers_expr_or_spread(e, d),
    decreases e,
{
    ExprOrSpreadData { spread: e.spread, expr: Arc::new(lower_expr(*e.expr)) }
}

#[verifier::loop_isolation(false)]
pub(crate) fn lower_expr_or_spreads(e: Vec<ExprOrSpread>) -> (d: Vec<ExprOrSpreadData>)
    ensures
        lowers_expr_or_spreads(e@, d@),
    decreases e,
{
    let ghost ge = e@;
    let mut out: Vec<ExprOrSpreadData> = Vec::new();
    for x in it: e.into_iter()
        invariant
            it.seq() == ge,
            out@.len() == it.index(),
            forall|j: int| 0 <= j < it.index() ==> lowers_expr_or_spread(#[trigger] ge[j], out@[j]),
    {
        proof {
            assert(decreases_to!(e => e@));
            assert(decreases_to!(e@ => e@[it.index() as int]));
        }
        out.push(lower_expr_or_spread(x));
    }
    out
}

pub(crate) fn lower_opt_expr_or_spreads(e: Option<Vec<ExprOrSpread>>) -> (d: Option<Vec<ExprOrSpreadData>>)
    ensures
        lowers_opt_expr_or_spreads(e, d),
    decreases e,
{
    match e {
        None => None,
        Some(a) => Some(lower_expr_or_spreads(a)),
    }
}

} // verus!
