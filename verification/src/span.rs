//! Positions in the source that is being processed.

use vstd::prelude::*;

verus! {

/// A position in the source is a `Span` of `proc_macro2`. The library reads
/// nothing in a span: it carries each from what it is given to what it
/// reports.
#[verifier::external_type_specification]
#[verifier::external_body]
pub struct ExSpan(proc_macro2::Span);

/// `Span::clone` of `proc_macro2`: a span is `Copy`, and its clone is the
/// span itself.
pub assume_specification[ <proc_macro2::Span as Clone>::clone ](
    span: &proc_macro2::Span,
) -> (copy: proc_macro2::Span)
    ensures
        copy == *span,
;

} // verus!
