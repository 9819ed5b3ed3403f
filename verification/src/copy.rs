//! What a copy of a tree node keeps.
//!
//! Bindings hand out copies of the nodes that lowering keeps as parsed
//! (literals, `new.target`, `break` labels, type references, JSX tags).
//! Each law below holds of any `b` that `a.clone()` can return
//! (`cloned(a, b)`), and says what `b` has in common with `a`.
use vstd::prelude::*;

use crate::ast::common::{Ident, IdentName, Span};
use crate::ast::expr::{MetaPropExpr, TplElement};
use crate::ast::jsx::{JSXClosingElement, JSXOpeningElement};
use crate::ast::lit::{Lit, Regex, Str};
use crate::ast::stmt::{BreakStmt, ContinueStmt};
use crate::ast::typescript::TsTypeRef;

verus! {

/// A copy of `new.target` or `import.meta` is the same meta property, at
/// the same place.
pub proof fn lemma_meta_prop_copy(a: MetaPropExpr, b: MetaPropExpr)
    requires
        cloned(a, b),
    ensures
        b.kind == a.kind,
        b.span == a.span,
{
}

/// A copy of a regular expression literal has the same pattern and the
/// same flags.
pub proof fn lemma_regex_copy(a: Regex, b: Regex)
    requires
        cloned(a, b),
    ensures
        b.exp == a.exp,
        b.flags == a.flags,
        b.span == a.span,
{
}

/// A copy of a literal is a literal of the same kind with the same value:
/// the same string, number bits, flag, pattern and flags, text, or sign
/// and digits.
pub proof fn lemma_lit_copy(a: Lit, b: Lit)
    requires
        cloned(a, b),
    ensures
        a is Str ==> b is Str && b->Str_0.value == a->Str_0.value && b->Str_0.raw == a->Str_0.raw,
        a is Bool ==> b == a,
        a is Null ==> b == a,
        a is Num ==> b is Num && b->Num_0.value_bits == a->Num_0.value_bits,
        a is BigInt ==> {
            &&& b is BigInt
            &&& b->BigInt_0.value.negative == a->BigInt_0.value.negative
            &&& b->BigInt_0.value.digits@ == a->BigInt_0.value.digits@
        },
        a is Regex ==> b is Regex && b->Regex_0.exp == a->Regex_0.exp && b->Regex_0.flags == a->Regex_0.flags,
        a is JSXText ==> b is JSXText && b->JSXText_0.value == a->JSXText_0.value,
{
}

/// A copy of a string literal has the same value.
pub proof fn lemma_str_copy(a: Str, b: Str)
    requires
        cloned(a, b),
    ensures
        b.value == a.value,
        b.raw == a.raw,
        b.span == a.span,
{
}

/// A copy of an identifier names the same thing in the same context.
pub proof fn lemma_ident_copy(a: Ident, b: Ident)
    requires
        cloned(a, b),
    ensures
        b.sym == a.sym,
        b.ctxt == a.ctxt,
        b.span == a.span,
        b.optional == a.optional,
{
}

/// A copy of `break` keeps its label, or its lack of one.
pub proof fn lemma_break_copy(a: BreakStmt, b: BreakStmt)
    requires
        cloned(a, b),
    ensures
        b.label == a.label,
        b.span == a.span,
{
}

/// A copy of `continue` keeps its label, or its lack of one.
pub proof fn lemma_continue_copy(a: ContinueStmt, b: ContinueStmt)
    requires
        cloned(a, b),
    ensures
        b.label == a.label,
        b.span == a.span,
{
}

/// A copy of a text part of a template has the same text, cooked and raw.
pub proof fn lemma_tpl_element_copy(a: TplElement, b: TplElement)
    requires
        cloned(a, b),
    ensures
        b.cooked == a.cooked,
        b.raw == a.raw,
        b.tail == a.tail,
        b.span == a.span,
{
}

/// A copy of a type reference names the same type and keeps its type
/// arguments: as many, in the same order, each the same type.
pub proof fn lemma_ts_type_ref_copy(a: TsTypeRef, b: TsTypeRef)
    requires
        cloned(a, b),
    ensures
        b.type_ref_name == a.type_ref_name,
        b.span == a.span,
        b.type_params is Some <==> a.type_params is Some,
        a.type_params is Some ==> {
            let x = a.type_params->Some_0;
            let y = b.type_params->Some_0;
            &&& y.span == x.span
            &&& y.params@.len() == x.params@.len()
            &&& forall|i: int| #![trigger x.params@[i]] 0 <= i < x.params@.len() ==> (*x.params@[i]).same_as(*y.params@[i])
        },
{
    if a == b {
        if let Some(x) = a.type_params {
            x.lemma_same_as_reflexive();
        }
    } else {
        assert(a.same_as(b));
        if let Some(x) = a.type_params {
            assert(x.same_as(*b.type_params->Some_0));
        }
    }
}

/// A copy of an opening JSX tag has the same name and place, is
/// self-closing exactly when the tag is, and keeps its attributes (as
/// many, in the same order, each the same) and its type arguments.
pub proof fn lemma_jsx_opening_element_copy(a: JSXOpeningElement, b: JSXOpeningElement)
    requires
        cloned(a, b),
    ensures
        b.name == a.name,
        b.span == a.span,
        b.self_closing == a.self_closing,
        b.attrs@.len() == a.attrs@.len(),
        forall|i: int| #![trigger a.attrs@[i]] 0 <= i < a.attrs@.len() ==> a.attrs@[i].same_as(b.attrs@[i]),
        b.type_args is Some <==> a.type_args is Some,
{
    if a == b {
        a.lemma_same_as_reflexive();
    } else {
        assert(a.same_as(b));
    }
}

/// A copy of a closing JSX tag has the same name and place.
pub proof fn lemma_jsx_closing_element_copy(a: JSXClosingElement, b: JSXClosingElement)
    requires
        cloned(a, b),
    ensures
        b == a,
{
}

} // verus!
