//! Building the text of error messages.

use vstd::prelude::*;
use crate::parser::Position;
use crate::semantics::{ErrorInner, ErrorInnerView};

verus! {

/// A text with one part filled in.
pub fn text1(a: &str, x: &str, b: &str) -> (r: String)
    ensures
        r@ == a@ + x@ + b@,
{
    let mut s = String::from_str(a);
    s.append(x);
    s.append(b);
    s
}

/// The error with the given message at the given place.
pub open spec fn error_at(pos: (Position, Position), message: Seq<char>) -> ErrorInnerView {
    ErrorInnerView { pos: Some(pos), message }
}

/// The error with the given message at the given place.
pub fn make_error(pos: (Position, Position), message: String) -> (r: ErrorInner)
    ensures
        r@ == error_at(pos, message@),
{
    ErrorInner { pos: Some(pos), message }
}

/// The view of a result: the view of what came out, or the view of the
/// error.
pub open spec fn result_view<A: View, E: View>(r: Result<A, E>) -> Result<A::V, E::V> {
    match r {
        Ok(a) => Ok(a@),
        Err(e) => Err(e@),
    }
}

/// The view of a result that fails with a list of errors.
pub open spec fn list_result_view<A: View>(r: Result<A, Vec<ErrorInner>>) -> Result<
    A::V,
    Seq<ErrorInnerView>,
> {
    match r {
        Ok(a) => Ok(a@),
        Err(e) => Err(crate::semantics::inner_errors_view(e@)),
    }
}

/// A list that holds one error.
pub fn one_error(e: ErrorInner) -> (r: Vec<ErrorInner>)
    ensures
        crate::semantics::inner_errors_view(r@) == seq![e@],
{
    let mut v: Vec<ErrorInner> = Vec::new();
    v.push(e);
    assert(crate::semantics::inner_errors_view(v@) =~= seq![e@]);
    v
}

/// Moves the errors of `more` to the end of `errors`.
pub fn extend_errors(errors: &mut Vec<ErrorInner>, more: Vec<ErrorInner>)
    ensures
        crate::semantics::inner_errors_view(final(errors)@) == crate::semantics::inner_errors_view(
            old(errors)@,
        ) + crate::semantics::inner_errors_view(more@),
{
    let mut more = more;
    let ghost a = errors@;
    let ghost b = more@;
    errors.append(&mut more);
    assert(crate::semantics::inner_errors_view(errors@) =~= crate::semantics::inner_errors_view(a)
        + crate::semantics::inner_errors_view(b));
}

/// Adds one error at the end of `errors`.
pub fn push_error(errors: &mut Vec<ErrorInner>, e: ErrorInner)
    ensures
        crate::semantics::inner_errors_view(final(errors)@) == crate::semantics::inner_errors_view(
            old(errors)@,
        ).push(e@),
{
    let ghost a = errors@;
    errors.push(e);
    assert(crate::semantics::inner_errors_view(errors@) =~= crate::semantics::inner_errors_view(
        a,
    ).push(e@));
}

} // verus!
