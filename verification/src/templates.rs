use vstd::prelude::*;

verus! {

/// The two lines of text shown on an error card.
#[derive(Debug, Clone)]
pub struct ErrorTemplate {
    pub first_line: String,
    pub second_line: String,
}

/// Marks a filled template as carrying vector-image markup; the
/// embedding program turns it into a response body.
#[derive(Debug, Clone)]
pub struct SVGTemplate<T>(pub T);

/// Marks a filled template as carrying page markup.
#[derive(Debug, Clone)]
pub struct HtmlTemplate<T>(pub T);

} // verus!
