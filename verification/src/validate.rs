//! The check that a text is HTML at all, and the error of a text that is not.

use crate::token::{fits_tokenizer, MAX_INPUT_BYTES};
use vstd::prelude::*;

verus! {

/// Why a table of contents could not be generated.
#[derive(Clone, Copy, Debug, PartialEq, Eq)]
pub enum TocError {
    /// The text holds no HTML syntax.
    InvalidInput,
}

impl TocError {
    /// The message of the error.
    pub fn message(&self) -> (message: String)
        ensures
            message@ == "Invalid HTML"@,
    {
        "Invalid HTML".to_owned()
    }
}

/// What `ammonia::is_html` answers for a text: whether its tokens hold
/// anything but character data.
pub uninterp spec fn html_syntax(html: Seq<char>) -> bool;

/// Calls `ammonia::is_html`, which tokenizes the text and reads nothing else:
/// the contract names its answer [`html_syntax`]. The bound keeps out the
/// inputs on which its buffer overflows and panics.
#[verifier::external_body]
fn ammonia_is_html(html: &str) -> (found: bool)
    requires
        fits_tokenizer(html@),
    ensures
        found == html_syntax(html@),
{
    ammonia::is_html(html)
}

/// A text passes as HTML when it is short enough to be tokenized and holds
/// HTML syntax.
pub open spec fn plausible_html(html: Seq<char>) -> bool {
    fits_tokenizer(html) && html_syntax(html)
}

/// Whether a text passes as HTML.
pub fn is_html(html: &str) -> (plausible: bool)
    ensures
        plausible == plausible_html(html@),
{
    html.as_bytes().len() <= MAX_INPUT_BYTES && ammonia_is_html(html)
}

} // verus!
