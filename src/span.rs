use vstd::prelude::*;

verus! {

/// A region of source text, produced by the parser and carried through the
/// compiler only to locate diagnostics.
#[verifier::external_type_specification]
#[verifier::external_body]
pub struct ExSpan<'i>(pest::Span<'i>);

} // verus!
