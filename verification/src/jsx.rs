//! JSX elements and fragments in lowered form.
use std::sync::Arc;
use vstd::prelude::*;

use crate::ast::common::Span;
use crate::ast::jsx::{
    JSXClosingElement, JSXClosingFragment, JSXElement, JSXElementChild, JSXExprContainer,
    JSXFragment, JSXOpeningElement, JSXOpeningFragment, JSXSpreadChild,
};
use crate::ast::lit::JSXText;

verus! {

/// A lowered JSX element: its children are lowered, its opening and
/// closing tags kept.
#[derive(Clone, Debug, PartialEq, Eq)]
pub struct JSXElementData {
    pub span: Span,
    pub opening: JSXOpeningElement,
    pub children: Vec<Arc<JSXElementChildData>>,
    pub closing: Option<JSXClosingElement>,
}

#[derive(Clone, Debug, PartialEq, Eq)]
pub struct JSXFragmentData {
    pub span: Span,
    pub opening: JSXOpeningFragment,
    pub children: Vec<Arc<JSXElementChildData>>,
    pub closing: JSXClosingFragment,
}

/// A lowered child of a JSX element or fragment.
#[derive(Clone, Debug, PartialEq, Eq)]
pub enum JSXElementChildData {
    Text(JSXText),
    ExprContainer(JSXExprContainer),
    SpreadChild(JSXSpreadChild),
    Element(Arc<JSXElementData>),
    Fragment(Arc<JSXFragmentData>),
}

// ---------------------------------------------------------------------
// What lowering produces
// ---------------------------------------------------------------------

/// `d` is the lowered form of the list of children `c`, in order.
pub open spec fn lowers_jsx_children(c: Seq<JSXElementChild>, d: Seq<Arc<JSXElementChildData>>) -> bool
    decreases c,
{
    &&& d.len() == c.len()
    &&& forall|i: int| 0 <= i < c.len() ==> lowers_jsx_element_child(#[trigger] c[i], *d[i])
}

/// `d` is the lowered form of the element `e`.
pub open spec fn lowers_jsx_element(e: JSXElement, d: JSXElementData) -> bool
    decreases e,
{
    &&& d.span == e.span
    &&& d.opening == e.opening
    &&& lowers_jsx_children(e.children@, d.children@)
    &&& d.closing == e.closing
}

/// `d` is the lowered form of the fragment `f`.
pub open spec fn lowers_jsx_fragment(f: JSXFragment, d: JSXFragmentData) -> bool
    decreases f,
{
    &&& d.span == f.span
    &&& d.opening == f.opening
    &&& lowers_jsx_children(f.children@, d.children@)
    &&& d.closing == f.closing
}

/// `d` is the lowered form of the child `c`: nested elements and fragments
/// are lowered, text, expression containers and spread children kept.
pub open spec fn lowers_jsx_element_child(c: JSXElementChild, d: JSXElementChildData) -> bool
    decreases c,
{
    match c {
        JSXElementChild::JSXText(x) => d == JSXElementChildData::Text(x),
        JSXElementChild::JSXExprContainer(x) => d == JSXElementChildData::ExprContainer(x),
        JSXElementChild::JSXSpreadChild(x) => d == JSXElementChildData::SpreadChild(x),
        JSXElementChild::JSXElement(x) => d is Element && lowers_jsx_element(*x, *d->Element_0),
        JSXElementChild::JSXFragment(x) => d is Fragment && lowers_jsx_fragment(x, *d->Fragment_0),
    }
}

// ---------------------------------------------------------------------
// Lowering
// ---------------------------------------------------------------------

#[verifier::loop_isolation(false)]
fn lower_jsx_children(c: Vec<JSXElementChild>) -> (d: Vec<Arc<JSXElementChildData>>)
    ensures
        lowers_jsx_children(c@, d@),
    decreases c,
{
    let ghost gc = c@;
    let mut out: Vec<Arc<JSXElementChildData>> = Vec::new();
    for x in it: c.into_iter()
        invariant
            it.seq() == gc,
            out@.len() == it.index(),
            forall|j: int| 0 <= j < it.index() ==> lowers_jsx_element_child(#[trigger] gc[j], *out@[j]),
    {
        proof {
            assert(decreases_to!(c => c@));
            assert(decreases_to!(c@ => c@[it.index() as int]));
        }
        out.push(Arc::new(lower_jsx_element_child(x)));
    }
    out
}

/// Lowers a JSX element.
pub fn lower_jsx_element(e: JSXElement) -> (d: JSXElementData)
    ensures
        lowers_jsx_element(e, d),
    decreases e,
{
    JSXElementData { span: e.span, opening: e.opening, children: lower_jsx_children(e.children), closing: e.closing }
}

/// Lowers a JSX fragment.
pub fn lower_jsx_fragment(f: JSXFragment) -> (d: JSXFragmentData)
    ensures
        lowers_jsx_fragment(f, d),
    decreases f,
{
    JSXFragmentData { span: f.span, opening: f.opening, children: lower_jsx_children(f.children), closing: f.closing }
}

/// Lowers a child of a JSX element or fragment.
pub fn lower_jsx_element_child(c: JSXElementChild) -> (d: JSXElementChildData)
    ensures
        lowers_jsx_element_child(c, d),
    decreases c,
{
    match c {
        JSXElementChild::JSXText(t) => JSXElementChildData::Text(t),
        JSXElementChild::JSXExprContainer(e) => JSXElementChildData::ExprContainer(e),
        JSXElementChild::JSXSpreadChild(x) => JSXElementChildData::SpreadChild(x),
        JSXElementChild::JSXElement(e) => JSXElementChildData::Element(Arc::new(lower_jsx_element(*e))),
        JSXElementChild::JSXFragment(f) => JSXElementChildData::Fragment(Arc::new(lower_jsx_fragment(f))),
    }
}

} // verus!
