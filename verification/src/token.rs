//! The tokens of an HTML text, as far as the extractors read them.
//!
//! Tokenization itself is the work of `html5ever`. This module holds the
//! plain-value form of a token, its mathematical view, and the call into the
//! tokenizer.

use html5ever::tendril::StrTendril;
use html5ever::tokenizer::{BufferQueue, TagKind, Token, TokenSink, TokenSinkResult, Tokenizer};
use vstd::prelude::*;
use vstd::string::StringSliceAdditionalSpecFns;
use vstd::utf8::encode_utf8;

verus! {

/// One attribute of a start tag: its local name and its value.
#[derive(Clone, Debug, PartialEq, Eq)]
pub struct HtmlAttribute {
    pub name: String,
    pub value: String,
}

/// The view of an [`HtmlAttribute`].
pub struct AttributeView {
    pub name: Seq<char>,
    pub value: Seq<char>,
}

impl View for HtmlAttribute {
    type V = AttributeView;

    open spec fn view(&self) -> AttributeView {
        AttributeView { name: self.name@, value: self.value@ }
    }
}

/// A token as the extractors see it: a start tag, a run of character data, or
/// anything else (end tags, comments, doctypes, errors, the end of input).
#[derive(Debug, PartialEq, Eq)]
pub enum HtmlToken {
    StartTag { name: String, self_closing: bool, attrs: Vec<HtmlAttribute> },
    Characters(String),
    Other,
}

/// The view of an [`HtmlToken`].
pub enum TokenView {
    StartTag { name: Seq<char>, self_closing: bool, attrs: Seq<AttributeView> },
    Characters(Seq<char>),
    Other,
}

/// The views of a sequence of attributes, in the same order.
pub open spec fn attrs_view(attrs: Seq<HtmlAttribute>) -> Seq<AttributeView> {
    attrs.map_values(|a: HtmlAttribute| a@)
}

impl View for HtmlToken {
    type V = TokenView;

    open spec fn view(&self) -> TokenView {
        match self {
            HtmlToken::StartTag { name, self_closing, attrs } => TokenView::StartTag {
                name: name@,
                self_closing: *self_closing,
                attrs: attrs_view(attrs@),
            },
            HtmlToken::Characters(text) => TokenView::Characters(text@),
            HtmlToken::Other => TokenView::Other,
        }
    }
}

/// The views of a sequence of tokens, in the same order.
pub open spec fn tokens_view(tokens: Seq<HtmlToken>) -> Seq<TokenView> {
    tokens.map_values(|t: HtmlToken| t@)
}

/// The longest input, in bytes, that is handed to the tokenizer. Its buffers
/// count their bytes in 32 bits and grow to the next power of two, and a
/// character of the input may take three times its bytes in them. The bound
/// leaves room for what the sanitizer puts before an id.
pub const MAX_INPUT_BYTES: usize = 0x1FFF_FFFF;

/// Whether a text is short enough to be tokenized: its UTF-8 form has at most
/// [`MAX_INPUT_BYTES`] bytes.
pub open spec fn fits_tokenizer(html: Seq<char>) -> bool {
    encode_utf8(html).len() <= MAX_INPUT_BYTES
}

/// The token sequence that `html5ever`'s tokenizer reports for `html`, from the
/// first token to the end-of-input token, when it starts in the data state
/// with its default options and its sink never asks for another state.
pub uninterp spec fn html_tokens(html: Seq<char>) -> Seq<TokenView>;

#[verifier::external_type_specification]
#[verifier::external_body]
pub struct ExToken(Token);

#[verifier::external_type_specification]
#[verifier::external_body]
#[verifier::reject_recursive_types(Handle)]
pub struct ExTokenSinkResult<Handle>(TokenSinkResult<Handle>);

/// The sink that records every token the tokenizer reports.
struct TokenCollector {
    tokens: Vec<HtmlToken>,
}

impl TokenSink for TokenCollector {
    type Handle = ();

    /// Called by `html5ever`'s tokenizer for each token. Appends the token's
    /// plain-value form and lets the tokenizer continue in its current state.
    /// Nothing is claimed of it here: what the collected tokens are is the
    /// claim of [`run_tokenizer`].
    #[verifier::external_body]
    fn process_token(&mut self, token: Token, _line_number: u64) -> TokenSinkResult<()> {
        self.tokens.push(match token {
            Token::TagToken(tag) if tag.kind == TagKind::StartTag => HtmlToken::StartTag {
                name: tag.name.to_string(),
                self_closing: tag.self_closing,
                attrs: tag.attrs.iter().map(|a| HtmlAttribute {
                    name: a.name.local.to_string(),
                    value: a.value.to_string(),
                }).collect(),
            },
            Token::CharacterTokens(text) => HtmlToken::Characters(text.to_string()),
            _ => HtmlToken::Other,
        });
        TokenSinkResult::Continue
    }
}

/// Runs `html5ever::tokenizer::Tokenizer` over `html` (`feed`, then `end`) with
/// a [`TokenCollector`] as its sink. The contract names the collected tokens
/// [`html_tokens`]: the tokenizer reads nothing but its input. The bound keeps
/// out the inputs on which a `StrTendril` overflows and panics.
#[verifier::external_body]
fn run_tokenizer(html: &str) -> (tokens: Vec<HtmlToken>)
    requires
        fits_tokenizer(html@),
    ensures
        tokens_view(tokens@) == html_tokens(html@),
{
    let mut input = BufferQueue::default();
    input.push_back(StrTendril::from_slice(html));
    let mut tokenizer = Tokenizer::new(TokenCollector { tokens: Vec::new() }, Default::default());
    let _ = tokenizer.feed(&mut input);
    tokenizer.end();
    tokenizer.sink.tokens
}

/// Tokenizes `html`. Returns `None` exactly when the input is longer than
/// [`MAX_INPUT_BYTES`], which the tokenizer cannot take.
pub fn tokenize(html: &str) -> (tokens: Option<Vec<HtmlToken>>)
    ensures
        fits_tokenizer(html@) ==> tokens is Some && tokens_view(tokens->0@) == html_tokens(html@),
        !fits_tokenizer(html@) ==> tokens is None,
{
    if html.as_bytes().len() > MAX_INPUT_BYTES {
        None
    } else {
        Some(run_tokenizer(html))
    }
}

} // verus!
