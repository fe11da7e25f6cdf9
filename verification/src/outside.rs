//! Calls into std and `syn` that Verus does not read.
use vstd::prelude::*;
use core::pin::Pin;

verus! {

/// `core::pin::Pin`, carried through opaquely.
#[verifier::external_type_specification]
#[verifier::external_body]
#[verifier::reject_recursive_types(Ptr)]
pub struct ExPin<Ptr>(Pin<Ptr>);

/// Calls `syn::parse_str::<syn::Expr>` and reports whether it succeeded.
/// Nothing is claimed of the answer: `syn` lexes the text with the
/// compiler's lexer inside a procedural macro and with its own elsewhere, so
/// the same text may be answered differently from one place to another.
/// The grammar takes the answers as given (see `syntax::expr_span`).
#[verifier::external_body]
pub(crate) fn parses_as_expr(text: &str) -> bool {
    syn::parse_str::<syn::Expr>(text).is_ok()
}

/// `String::push`: appends one character.
#[verifier::external_body]
pub(crate) fn push_char(s: &mut String, c: char)
    ensures
        final(s)@ == old(s)@.push(c),
{
    s.push(c)
}

/// `Box::pin`: moves a value into a pinned heap allocation.  Nothing is
/// claimed of the result, which Verus cannot look into.
#[verifier::external_body]
pub(crate) fn box_pin<T>(x: T) -> Pin<Box<T>> {
    Box::pin(x)
}

} // verus!
