//! The heading extractor: a table of contents from the tokens of an HTML text.
//!
//! The extractor folds [`toc_step`] over the tokens. A start tag `h1` to `h6`
//! that is not self-closing opens a heading; the first run of character data
//! after it becomes its text; an empty run in that place removes the heading
//! again. Text attaches to the heading opened last, whatever lies between.

use crate::text::same_text;
use crate::validate::{is_html, plausible_html};
use crate::token::{
    attrs_view, fits_tokenizer, html_tokens, tokenize, tokens_view, AttributeView, HtmlAttribute,
    HtmlToken, TokenView,
};
use vstd::prelude::*;
use vstd::string::StrSliceExecFns;

verus! {

/// One heading of a note.
#[derive(Clone, Debug, PartialEq, Eq)]
pub struct TocHeading {
    /// The rank of the heading, 1 for `h1` to 6 for `h6`.
    pub level: u8,
    /// The value of the `class` attribute, if the tag has one.
    pub class_name: Option<String>,
    /// The value of the `id` attribute, if the tag has one.
    pub id: Option<String>,
    /// The first run of character data after the start tag.
    pub text: Option<String>,
}

/// The view of a [`TocHeading`].
pub struct HeadingView {
    pub level: u8,
    pub class_name: Option<Seq<char>>,
    pub id: Option<Seq<char>>,
    pub text: Option<Seq<char>>,
}

/// The characters of an optional string.
pub open spec fn option_text(text: Option<String>) -> Option<Seq<char>> {
    match text {
        Some(s) => Some(s@),
        None => None,
    }
}

impl View for TocHeading {
    type V = HeadingView;

    open spec fn view(&self) -> HeadingView {
        HeadingView {
            level: self.level,
            class_name: option_text(self.class_name),
            id: option_text(self.id),
            text: option_text(self.text),
        }
    }
}

impl HeadingView {
    /// The rank is one of 1 to 6.
    pub open spec fn wf(self) -> bool {
        1 <= self.level <= 6
    }

    /// The same heading with `text` as its text.
    pub open spec fn with_text(self, text: Seq<char>) -> HeadingView {
        HeadingView { text: Some(text), ..self }
    }
}

/// The views of a sequence of headings, in the same order.
pub open spec fn headings_view(headings: Seq<TocHeading>) -> Seq<HeadingView> {
    headings.map_values(|h: TocHeading| h@)
}

/// The rank that a tag name stands for: `h1` is 1, up to `h6`, which is 6.
/// Any other name is no heading.
pub open spec fn heading_level(name: Seq<char>) -> Option<u8> {
    if name == "h1"@ {
        Some(1u8)
    } else if name == "h2"@ {
        Some(2u8)
    } else if name == "h3"@ {
        Some(3u8)
    } else if name == "h4"@ {
        Some(4u8)
    } else if name == "h5"@ {
        Some(5u8)
    } else if name == "h6"@ {
        Some(6u8)
    } else {
        None
    }
}

/// The value of the first attribute called `name`, if there is one. An empty
/// value counts: what matters is that the attribute is there.
pub open spec fn attribute_value(attrs: Seq<AttributeView>, name: Seq<char>) -> Option<Seq<char>>
    decreases attrs.len(),
{
    if attrs.len() == 0 {
        None
    } else if attrs[0].name == name {
        Some(attrs[0].value)
    } else {
        attribute_value(attrs.drop_first(), name)
    }
}

/// Whether a token opens a heading: a start tag `h1` to `h6` that is not
/// self-closing.
pub open spec fn opens_heading(token: TokenView) -> bool {
    token matches TokenView::StartTag { name, self_closing, .. } && !self_closing && heading_level(
        name,
    ) is Some
}

/// The heading that a start tag opens: its rank, its `class` and `id`, no text.
pub open spec fn opened_heading(token: TokenView) -> HeadingView
    recommends
        opens_heading(token),
{
    HeadingView {
        level: heading_level(token->name)->0,
        class_name: attribute_value(token->attrs, "class"@),
        id: attribute_value(token->attrs, "id"@),
        text: None,
    }
}

/// The headings after one more token.
pub open spec fn toc_step(acc: Seq<HeadingView>, token: TokenView) -> Seq<HeadingView> {
    match token {
        TokenView::StartTag { .. } => if opens_heading(token) {
            acc.push(opened_heading(token))
        } else {
            acc
        },
        TokenView::Characters(text) => if acc.len() == 0 || acc.last().text is Some {
            acc
        } else if text.len() == 0 {
            acc.drop_last()
        } else {
            acc.update(acc.len() - 1, acc.last().with_text(text))
        },
        TokenView::Other => acc,
    }
}

/// The table of contents of a token sequence: [`toc_step`] folded over it from
/// the empty table.
pub open spec fn toc_of(tokens: Seq<TokenView>) -> Seq<HeadingView>
    decreases tokens.len(),
{
    if tokens.len() == 0 {
        Seq::empty()
    } else {
        toc_step(toc_of(tokens.drop_last()), tokens.last())
    }
}

/// The table of contents of an HTML text: that of its tokens, and empty where
/// the text is too long to be tokenized.
pub open spec fn toc_of_html(html: Seq<char>) -> Seq<HeadingView> {
    if fits_tokenizer(html) {
        toc_of(html_tokens(html))
    } else {
        Seq::empty()
    }
}

/// The tag name of the heading of rank `level`.
pub open spec fn heading_tag(level: u8) -> Seq<char>
    recommends
        1 <= level <= 6,
{
    if level == 1 {
        "h1"@
    } else if level == 2 {
        "h2"@
    } else if level == 3 {
        "h3"@
    } else if level == 4 {
        "h4"@
    } else if level == 5 {
        "h5"@
    } else {
        "h6"@
    }
}

/// The positions, in the token sequence, of the start tags that opened the
/// headings of [`toc_of`], one for each heading and in the table's order.
pub open spec fn toc_sources(tokens: Seq<TokenView>) -> Seq<int>
    decreases tokens.len(),
{
    if tokens.len() == 0 {
        Seq::empty()
    } else {
        let sources = toc_sources(tokens.drop_last());
        let acc = toc_of(tokens.drop_last());
        match tokens.last() {
            TokenView::StartTag { .. } => if opens_heading(tokens.last()) {
                sources.push(tokens.len() - 1)
            } else {
                sources
            },
            TokenView::Characters(text) => if acc.len() > 0 && acc.last().text is None && text.len()
                == 0 {
                sources.drop_last()
            } else {
                sources
            },
            TokenView::Other => sources,
        }
    }
}

/// The heading was opened by the token at position `source`: that token is a
/// start tag `h1` to `h6`, not self-closing, and the heading has its rank, its
/// `class` and its `id`.
pub open spec fn opened_at(tokens: Seq<TokenView>, heading: HeadingView, source: int) -> bool {
    &&& 0 <= source < tokens.len()
    &&& opens_heading(tokens[source])
    &&& heading.level == opened_heading(tokens[source]).level
    &&& heading.class_name == opened_heading(tokens[source]).class_name
    &&& heading.id == opened_heading(tokens[source]).id
}

/// Each heading of `toc` was opened at the position that `sources` gives for
/// it, and these positions grow along the table.
pub open spec fn in_document_order(
    tokens: Seq<TokenView>,
    toc: Seq<HeadingView>,
    sources: Seq<int>,
) -> bool {
    &&& sources.len() == toc.len()
    &&& forall|k: int| 0 <= k < toc.len() ==> #[trigger] opened_at(tokens, toc[k], sources[k])
    &&& forall|j: int, k: int| 0 <= j < k < toc.len() ==> #[trigger] sources[j] < #[trigger] sources[k]
}

/// Order is kept: the headings of a table stand in the order in which their
/// start tags occur among the tokens, whatever their ranks.
pub proof fn lemma_toc_in_document_order(tokens: Seq<TokenView>)
    ensures
        in_document_order(tokens, toc_of(tokens), toc_sources(tokens)),
    decreases tokens.len(),
{
    if tokens.len() > 0 {
        let before = tokens.drop_last();
        lemma_toc_in_document_order(before);
        let toc = toc_of(tokens);
        let sources = toc_sources(tokens);
        let acc = toc_of(before);
        let old_sources = toc_sources(before);
        assert forall|k: int| 0 <= k < toc.len() implies #[trigger] opened_at(
            tokens,
            toc[k],
            sources[k],
        ) by {
            if k < acc.len() {
                assert(opened_at(before, acc[k], old_sources[k]));
                assert(before[old_sources[k]] == tokens[old_sources[k]]);
            }
        }
        assert forall|j: int, k: int| 0 <= j < k < toc.len() implies #[trigger] sources[j]
            < #[trigger] sources[k] by {
            assert(opened_at(before, acc[j], old_sources[j]));
            if k < acc.len() {
                assert(old_sources[j] < old_sources[k]);
            }
        }
    }
}

/// Every heading of a table has a rank from 1 to 6.
pub proof fn lemma_toc_levels(tokens: Seq<TokenView>)
    ensures
        forall|k: int| 0 <= k < toc_of(tokens).len() ==> (#[trigger] toc_of(tokens)[k]).wf(),
{
    lemma_toc_in_document_order(tokens);
    assert forall|k: int| 0 <= k < toc_of(tokens).len() implies (#[trigger] toc_of(tokens)[k]).wf() by {
        assert(opened_at(tokens, toc_of(tokens)[k], toc_sources(tokens)[k]));
    }
}

/// The rank of a heading is the digit of its tag: a start tag `h1` to `h6`
/// that is not self-closing appends one heading, of rank 1 to 6 in turn.
pub proof fn lemma_level_mapping(acc: Seq<HeadingView>, level: u8, attrs: Seq<AttributeView>)
    requires
        1 <= level <= 6,
    ensures
        heading_level(heading_tag(level)) == Some(level),
        ({
            let tag = TokenView::StartTag { name: heading_tag(level), self_closing: false, attrs };
            &&& toc_step(acc, tag) == acc.push(opened_heading(tag))
            &&& toc_step(acc, tag).last().level == level
        }),
{
    reveal_strlit("h1");
    reveal_strlit("h2");
    reveal_strlit("h3");
    reveal_strlit("h4");
    reveal_strlit("h5");
    reveal_strlit("h6");
    assert("h1"@[1] == '1' && "h2"@[1] == '2' && "h3"@[1] == '3');
    assert("h4"@[1] == '4' && "h5"@[1] == '5' && "h6"@[1] == '6');
}

/// Exchanging two neighbouring attributes of different names changes the value
/// found for no name.
pub proof fn lemma_attribute_order(
    before: Seq<AttributeView>,
    a: AttributeView,
    b: AttributeView,
    after: Seq<AttributeView>,
    name: Seq<char>,
)
    requires
        a.name != b.name,
    ensures
        attribute_value(before + seq![a, b] + after, name) == attribute_value(
            before + seq![b, a] + after,
            name,
        ),
    decreases before.len(),
{
    let ab = before + seq![a, b] + after;
    let ba = before + seq![b, a] + after;
    if before.len() == 0 {
        reveal_with_fuel(attribute_value, 3);
        assert(ab.drop_first().drop_first() =~= after);
        assert(ba.drop_first().drop_first() =~= after);
        assert(ab[0] == a && ab.drop_first()[0] == b);
        assert(ba[0] == b && ba.drop_first()[0] == a);
    } else {
        lemma_attribute_order(before.drop_first(), a, b, after, name);
        assert(ab[0] == before[0] && ba[0] == before[0]);
        assert(ab.drop_first() =~= before.drop_first() + seq![a, b] + after);
        assert(ba.drop_first() =~= before.drop_first() + seq![b, a] + after);
    }
}

/// The order of `class` and `id` does not matter: a tag with two neighbouring
/// attributes of different names gives the same table as the tag with the two
/// exchanged.
pub proof fn lemma_attribute_independence(
    acc: Seq<HeadingView>,
    name: Seq<char>,
    self_closing: bool,
    before: Seq<AttributeView>,
    a: AttributeView,
    b: AttributeView,
    after: Seq<AttributeView>,
)
    requires
        a.name != b.name,
    ensures
        toc_step(
            acc,
            TokenView::StartTag { name, self_closing, attrs: before + seq![a, b] + after },
        ) == toc_step(
            acc,
            TokenView::StartTag { name, self_closing, attrs: before + seq![b, a] + after },
        ),
{
    lemma_attribute_order(before, a, b, after, "class"@);
    lemma_attribute_order(before, a, b, after, "id"@);
}

/// Text is recorded once. A heading just opened has no text; the first
/// non-empty run of character data becomes its text; a second run, empty or
/// not, changes nothing.
pub proof fn lemma_text_once(
    acc: Seq<HeadingView>,
    tag: TokenView,
    first: Seq<char>,
    second: Seq<char>,
)
    requires
        opens_heading(tag),
        first.len() > 0,
    ensures
        toc_step(acc, tag).last().text is None,
        toc_step(toc_step(acc, tag), TokenView::Characters(first)) == acc.push(
            opened_heading(tag).with_text(first),
        ),
        toc_step(
            toc_step(toc_step(acc, tag), TokenView::Characters(first)),
            TokenView::Characters(second),
        ) == acc.push(opened_heading(tag).with_text(first)),
{
    let opened = acc.push(opened_heading(tag));
    assert(toc_step(acc, tag) == opened);
    assert(opened.update(opened.len() - 1, opened.last().with_text(first)) =~= acc.push(
        opened_heading(tag).with_text(first),
    ));
}

/// Once the last heading has its text, only a token that opens a heading
/// changes the table.
pub proof fn lemma_text_is_final(acc: Seq<HeadingView>, token: TokenView)
    requires
        acc.len() > 0,
        acc.last().text is Some,
        !opens_heading(token),
    ensures
        toc_step(acc, token) == acc,
{
}

/// An empty run of character data right after a start tag removes the heading
/// that the tag opened.
pub proof fn lemma_empty_run_discards(acc: Seq<HeadingView>, tag: TokenView)
    requires
        opens_heading(tag),
    ensures
        toc_step(toc_step(acc, tag), TokenView::Characters(Seq::empty())) == acc,
{
    assert(acc.push(opened_heading(tag)).drop_last() =~= acc);
}

/// A self-closing tag opens no heading, whatever its name.
pub proof fn lemma_self_closing_excluded(
    acc: Seq<HeadingView>,
    name: Seq<char>,
    attrs: Seq<AttributeView>,
)
    ensures
        toc_step(acc, TokenView::StartTag { name, self_closing: true, attrs }) == acc,
{
}

/// No heading of a table was opened by a self-closing tag.
pub proof fn lemma_no_self_closing_source(tokens: Seq<TokenView>, k: int)
    requires
        0 <= k < toc_of(tokens).len(),
    ensures
        0 <= toc_sources(tokens)[k] < tokens.len(),
        tokens[toc_sources(tokens)[k]] is StartTag,
        !tokens[toc_sources(tokens)[k]]->self_closing,
{
    lemma_toc_in_document_order(tokens);
    assert(opened_at(tokens, toc_of(tokens)[k], toc_sources(tokens)[k]));
}

/// Extraction is a function of the text: two tables generated from the same
/// text have the same length and, place by place, the same headings.
pub proof fn lemma_generate_toc_deterministic(
    html: Seq<char>,
    first: Vec<TocHeading>,
    second: Vec<TocHeading>,
)
    requires
        headings_view(first@) == toc_of_html(html),
        headings_view(second@) == toc_of_html(html),
    ensures
        first@.len() == second@.len(),
        forall|k: int| 0 <= k < first@.len() ==> (#[trigger] first@[k])@ == second@[k]@,
{
    assert(headings_view(first@).len() == first@.len());
    assert(headings_view(second@).len() == second@.len());
    assert forall|k: int| 0 <= k < first@.len() implies (#[trigger] first@[k])@ == second@[k]@ by {
        assert(headings_view(first@)[k] == first@[k]@);
        assert(headings_view(second@)[k] == second@[k]@);
    }
}

/// The rank of a tag name, by the fixed table `h1` to `h6`.
pub fn level_of_tag(name: &str) -> (level: Option<u8>)
    ensures
        level == heading_level(name@),
{
    proof {
        reveal_strlit("h1");
        reveal_strlit("h2");
        reveal_strlit("h3");
        reveal_strlit("h4");
        reveal_strlit("h5");
        reveal_strlit("h6");
    }
    if name.unicode_len() != 2 {
        return None;
    }
    if name.get_char(0) != 'h' {
        return None;
    }
    let digit = name.get_char(1);
    let level: Option<u8> = if digit == '1' {
        Some(1)
    } else if digit == '2' {
        Some(2)
    } else if digit == '3' {
        Some(3)
    } else if digit == '4' {
        Some(4)
    } else if digit == '5' {
        Some(5)
    } else if digit == '6' {
        Some(6)
    } else {
        None
    };
    proof {
        assert(name@[0] == 'h' && name@[1] == digit);
        if level is Some {
            assert(name@ =~= seq!['h', digit]);
            assert("h1"@ =~= seq!['h', '1']);
            assert("h2"@ =~= seq!['h', '2']);
            assert("h3"@ =~= seq!['h', '3']);
            assert("h4"@ =~= seq!['h', '4']);
            assert("h5"@ =~= seq!['h', '5']);
            assert("h6"@ =~= seq!['h', '6']);
        }
    }
    level
}

/// The value of the first attribute called `name`.
pub fn find_attribute(attrs: &Vec<HtmlAttribute>, name: &str) -> (value: Option<String>)
    ensures
        option_text(value) == attribute_value(attrs_view(attrs@), name@),
{
    let ghost all = attrs_view(attrs@);
    let mut i: usize = 0;
    assert(all.skip(0) =~= all);
    while i < attrs.len()
        invariant
            i <= attrs.len(),
            all == attrs_view(attrs@),
            attribute_value(all, name@) == attribute_value(all.skip(i as int), name@),
        decreases attrs.len() - i,
    {
        proof {
            assert(all.skip(i as int)[0] == attrs@[i as int]@);
            assert(all.skip(i as int).drop_first() =~= all.skip(i + 1));
        }
        if same_text(attrs[i].name.as_str(), name) {
            return Some(attrs[i].value.clone());
        }
        i += 1;
    }
    None
}

impl TocHeading {
    /// Records `text` as the heading's text.
    pub fn set_text(&mut self, text: &str)
        ensures
            final(self)@ == old(self)@.with_text(text@),
    {
        self.text = Some(text.to_owned());
    }
}

/// The accumulator of the heading extractor.
pub struct TocSink {
    pub headings: Vec<TocHeading>,
}

impl View for TocSink {
    type V = Seq<HeadingView>;

    open spec fn view(&self) -> Seq<HeadingView> {
        headings_view(self.headings@)
    }
}

impl TocSink {
    /// A sink that has seen no token.
    pub fn new() -> (sink: TocSink)
        ensures
            sink@ == Seq::<HeadingView>::empty(),
    {
        let sink = TocSink { headings: Vec::new() };
        assert(sink@ =~= Seq::<HeadingView>::empty());
        sink
    }

    /// Takes the next token: the table afterwards is [`toc_step`] of the table
    /// before.
    pub fn process_token(&mut self, token: &HtmlToken)
        ensures
            final(self)@ == toc_step(old(self)@, token@),
    {
        match token {
            HtmlToken::StartTag { name, self_closing, attrs } => {
                if !*self_closing {
                    if let Some(level) = level_of_tag(name.as_str()) {
                        let class_name = find_attribute(attrs, "class");
                        let id = find_attribute(attrs, "id");
                        let heading = TocHeading { level, class_name, id, text: None };
                        self.headings.push(heading);
                        assert(self@ =~= old(self)@.push(opened_heading(token@)));
                    }
                }
            },
            HtmlToken::Characters(text) => {
                let n: usize = self.headings.len();
                if n > 0 && self.headings[n - 1].text.is_none() {
                    let mut last = self.headings.pop().unwrap();
                    assert(self@ =~= old(self)@.drop_last());
                    if !text.as_str().is_empty() {
                        last.set_text(text.as_str());
                        self.headings.push(last);
                        assert(self@ =~= old(self)@.update(
                            n - 1,
                            old(self)@.last().with_text(text@),
                        ));
                    }
                }
            },
            HtmlToken::Other => {},
        }
    }
}

/// The table of contents of a token sequence.
pub fn toc_from_tokens(tokens: &Vec<HtmlToken>) -> (headings: Vec<TocHeading>)
    ensures
        headings_view(headings@) == toc_of(tokens_view(tokens@)),
        forall|k: int| 0 <= k < headings@.len() ==> 1 <= (#[trigger] headings@[k]).level <= 6,
{
    let mut sink = TocSink::new();
    let ghost all = tokens_view(tokens@);
    let mut i: usize = 0;
    while i < tokens.len()
        invariant
            i <= tokens.len(),
            all == tokens_view(tokens@),
            sink@ == toc_of(all.take(i as int)),
        decreases tokens.len() - i,
    {
        sink.process_token(&tokens[i]);
        proof {
            assert(all.take(i + 1).drop_last() =~= all.take(i as int));
            assert(all.take(i + 1).last() == tokens@[i as int]@);
        }
        i += 1;
    }
    assert(all.take(i as int) =~= all);
    proof {
        lemma_toc_levels(all);
        assert forall|k: int| 0 <= k < sink.headings@.len() implies 1 <= (#[trigger] sink.headings@[
            k
        ]).level <= 6 by {
            assert(sink@[k] == sink.headings@[k]@);
            assert(toc_of(all)[k].wf());
        }
    }
    sink.headings
}

/// Generates the table of contents of an HTML text. Never fails: a text too
/// long to be tokenized has an empty table.
pub fn generate_toc(html: &str) -> (toc: Result<Vec<TocHeading>, String>)
    ensures
        toc is Ok,
        headings_view(toc->Ok_0@) == toc_of_html(html@),
        forall|k: int| 0 <= k < toc->Ok_0@.len() ==> 1 <= (#[trigger] toc->Ok_0@[k]).level <= 6,
{
    match tokenize(html) {
        Some(tokens) => Ok(toc_from_tokens(&tokens)),
        None => {
            let headings: Vec<TocHeading> = Vec::new();
            assert(headings_view(headings@) =~= Seq::<HeadingView>::empty());
            Ok(headings)
        },
    }
}

/// Generates the table of contents of an HTML text after checking that the
/// text is HTML at all. Fails with the message `Invalid HTML` exactly when the
/// text does not pass as HTML.
pub fn generate_toc_checked(html: &str) -> (toc: Result<Vec<TocHeading>, String>)
    ensures
        !plausible_html(html@) ==> toc is Err && toc->Err_0@ == "Invalid HTML"@,
        plausible_html(html@) ==> toc is Ok && headings_view(toc->Ok_0@) == toc_of_html(html@),
{
    if !is_html(html) {
        return Err("Invalid HTML".to_owned());
    }
    generate_toc(html)
}

} // verus!
