//! The structural node extractor: the block elements of an HTML text.
//!
//! It works as the heading extractor does, on the headings `h1` to `h6` and
//! the paragraph `p`, and keeps of each element its tag and its first run of
//! character data.

use crate::text::same_text;
use crate::toc::{heading_level, level_of_tag, option_text};
use crate::token::{
    fits_tokenizer, html_tokens, tokenize, tokens_view, AttributeView, HtmlToken, TokenView,
};
use vstd::prelude::*;

verus! {

/// One block element: a heading or a paragraph.
#[derive(Clone, Debug, PartialEq, Eq)]
pub struct HtmlNode {
    /// The tag name, one of `h1` to `h6` or `p`.
    pub tag: String,
    /// The first run of character data after the start tag.
    pub body: Option<String>,
}

/// The view of an [`HtmlNode`].
pub struct NodeView {
    pub tag: Seq<char>,
    pub body: Option<Seq<char>>,
}

impl View for HtmlNode {
    type V = NodeView;

    open spec fn view(&self) -> NodeView {
        NodeView { tag: self.tag@, body: option_text(self.body) }
    }
}

impl NodeView {
    /// The tag is one that the extractor records.
    pub open spec fn wf(self) -> bool {
        is_block_tag(self.tag)
    }

    /// The same node with `body` as its body.
    pub open spec fn with_body(self, body: Seq<char>) -> NodeView {
        NodeView { body: Some(body), ..self }
    }
}

/// The views of a sequence of nodes, in the same order.
pub open spec fn nodes_view(nodes: Seq<HtmlNode>) -> Seq<NodeView> {
    nodes.map_values(|n: HtmlNode| n@)
}

/// The tags that the extractor records: `h1` to `h6`, and `p`.
pub open spec fn is_block_tag(name: Seq<char>) -> bool {
    heading_level(name) is Some || name == "p"@
}

/// Whether a token opens a node: a start tag of a recorded name that is not
/// self-closing.
pub open spec fn opens_node(token: TokenView) -> bool {
    token matches TokenView::StartTag { name, self_closing, .. } && !self_closing && is_block_tag(
        name,
    )
}

/// The nodes after one more token.
pub open spec fn node_step(acc: Seq<NodeView>, token: TokenView) -> Seq<NodeView> {
    match token {
        TokenView::StartTag { name, .. } => if opens_node(token) {
            acc.push(NodeView { tag: name, body: None })
        } else {
            acc
        },
        TokenView::Characters(text) => if acc.len() == 0 || acc.last().body is Some {
            acc
        } else if text.len() == 0 {
            acc.drop_last()
        } else {
            acc.update(acc.len() - 1, acc.last().with_body(text))
        },
        TokenView::Other => acc,
    }
}

/// The nodes of a token sequence: [`node_step`] folded over it from the empty
/// list.
pub open spec fn nodes_of(tokens: Seq<TokenView>) -> Seq<NodeView>
    decreases tokens.len(),
{
    if tokens.len() == 0 {
        Seq::empty()
    } else {
        node_step(nodes_of(tokens.drop_last()), tokens.last())
    }
}

/// The nodes of an HTML text: those of its tokens, and none where the text is
/// too long to be tokenized.
pub open spec fn nodes_of_html(html: Seq<char>) -> Seq<NodeView> {
    if fits_tokenizer(html) {
        nodes_of(html_tokens(html))
    } else {
        Seq::empty()
    }
}

/// The positions, in the token sequence, of the start tags that opened the
/// nodes of [`nodes_of`], one for each node and in the list's order.
pub open spec fn node_sources(tokens: Seq<TokenView>) -> Seq<int>
    decreases tokens.len(),
{
    if tokens.len() == 0 {
        Seq::empty()
    } else {
        let sources = node_sources(tokens.drop_last());
        let acc = nodes_of(tokens.drop_last());
        match tokens.last() {
            TokenView::StartTag { .. } => if opens_node(tokens.last()) {
                sources.push(tokens.len() - 1)
            } else {
                sources
            },
            TokenView::Characters(text) => if acc.len() > 0 && acc.last().body is None && text.len()
                == 0 {
                sources.drop_last()
            } else {
                sources
            },
            TokenView::Other => sources,
        }
    }
}

/// The node was opened by the token at position `source`: that token is a
/// start tag of a recorded name, not self-closing, and the node has its name.
pub open spec fn node_opened_at(tokens: Seq<TokenView>, node: NodeView, source: int) -> bool {
    &&& 0 <= source < tokens.len()
    &&& opens_node(tokens[source])
    &&& node.tag == tokens[source]->name
}

/// Each node of `nodes` was opened at the position that `sources` gives for
/// it, and these positions grow along the list.
pub open spec fn nodes_in_document_order(
    tokens: Seq<TokenView>,
    nodes: Seq<NodeView>,
    sources: Seq<int>,
) -> bool {
    &&& sources.len() == nodes.len()
    &&& forall|k: int|
        0 <= k < nodes.len() ==> #[trigger] node_opened_at(tokens, nodes[k], sources[k])
    &&& forall|j: int, k: int|
        0 <= j < k < nodes.len() ==> #[trigger] sources[j] < #[trigger] sources[k]
}

/// Order is kept: the nodes of a list stand in the order in which their start
/// tags occur among the tokens.
pub proof fn lemma_nodes_in_document_order(tokens: Seq<TokenView>)
    ensures
        nodes_in_document_order(tokens, nodes_of(tokens), node_sources(tokens)),
    decreases tokens.len(),
{
    if tokens.len() > 0 {
        let before = tokens.drop_last();
        lemma_nodes_in_document_order(before);
        let nodes = nodes_of(tokens);
        let sources = node_sources(tokens);
        let acc = nodes_of(before);
        let old_sources = node_sources(before);
        assert forall|k: int| 0 <= k < nodes.len() implies #[trigger] node_opened_at(
            tokens,
            nodes[k],
            sources[k],
        ) by {
            if k < acc.len() {
                assert(node_opened_at(before, acc[k], old_sources[k]));
                assert(before[old_sources[k]] == tokens[old_sources[k]]);
            }
        }
        assert forall|j: int, k: int| 0 <= j < k < nodes.len() implies #[trigger] sources[j]
            < #[trigger] sources[k] by {
            assert(node_opened_at(before, acc[j], old_sources[j]));
            if k < acc.len() {
                assert(old_sources[j] < old_sources[k]);
            }
        }
    }
}

/// A node just opened has no body; the first non-empty run of character data
/// becomes its body; a second run changes nothing.
pub proof fn lemma_body_once(acc: Seq<NodeView>, tag: TokenView, first: Seq<char>, second: Seq<char>)
    requires
        opens_node(tag),
        first.len() > 0,
    ensures
        node_step(acc, tag) == acc.push(NodeView { tag: tag->name, body: None }),
        node_step(node_step(acc, tag), TokenView::Characters(first)) == acc.push(
            NodeView { tag: tag->name, body: Some(first) },
        ),
        node_step(
            node_step(node_step(acc, tag), TokenView::Characters(first)),
            TokenView::Characters(second),
        ) == acc.push(NodeView { tag: tag->name, body: Some(first) }),
{
    let opened = acc.push(NodeView { tag: tag->name, body: None });
    assert(node_step(acc, tag) == opened);
    assert(opened.update(opened.len() - 1, opened.last().with_body(first)) =~= acc.push(
        NodeView { tag: tag->name, body: Some(first) },
    ));
}

/// An empty run of character data right after a start tag removes the node
/// that the tag opened.
pub proof fn lemma_empty_run_discards_node(acc: Seq<NodeView>, tag: TokenView)
    requires
        opens_node(tag),
    ensures
        node_step(node_step(acc, tag), TokenView::Characters(Seq::empty())) == acc,
{
    assert(acc.push(NodeView { tag: tag->name, body: None }).drop_last() =~= acc);
}

/// A self-closing tag opens no node, whatever its name.
pub proof fn lemma_self_closing_opens_no_node(
    acc: Seq<NodeView>,
    name: Seq<char>,
    attrs: Seq<AttributeView>,
)
    ensures
        node_step(acc, TokenView::StartTag { name, self_closing: true, attrs }) == acc,
{
}

/// Every node of a list has a recorded tag.
pub proof fn lemma_nodes_wf(tokens: Seq<TokenView>)
    ensures
        forall|k: int| 0 <= k < nodes_of(tokens).len() ==> (#[trigger] nodes_of(tokens)[k]).wf(),
    decreases tokens.len(),
{
    if tokens.len() > 0 {
        lemma_nodes_wf(tokens.drop_last());
        let acc = nodes_of(tokens.drop_last());
        assert forall|k: int| 0 <= k < nodes_of(tokens).len() implies (#[trigger] nodes_of(
            tokens,
        )[k]).wf() by {
            if k < acc.len() {
                assert(acc[k].wf());
            }
        }
    }
}

/// Whether `name` is a tag that the extractor records.
pub fn is_block_tag_name(name: &str) -> (block: bool)
    ensures
        block == is_block_tag(name@),
{
    level_of_tag(name).is_some() || same_text(name, "p")
}

/// The accumulator of the node extractor, and its result.
#[derive(Clone, Debug, PartialEq, Eq)]
pub struct HtmlParseResult {
    pub nodes: Vec<HtmlNode>,
}

impl View for HtmlParseResult {
    type V = Seq<NodeView>;

    open spec fn view(&self) -> Seq<NodeView> {
        nodes_view(self.nodes@)
    }
}

impl HtmlParseResult {
    /// A result that has seen no token.
    pub fn new() -> (result: HtmlParseResult)
        ensures
            result@ == Seq::<NodeView>::empty(),
    {
        let result = HtmlParseResult { nodes: Vec::new() };
        assert(result@ =~= Seq::<NodeView>::empty());
        result
    }

    /// Takes the next token: the nodes afterwards are [`node_step`] of the
    /// nodes before.
    pub fn process_token(&mut self, token: &HtmlToken)
        ensures
            final(self)@ == node_step(old(self)@, token@),
    {
        match token {
            HtmlToken::StartTag { name, self_closing, attrs: _ } => {
                if !*self_closing && is_block_tag_name(name.as_str()) {
                    self.nodes.push(HtmlNode { tag: name.clone(), body: None });
                    assert(self@ =~= old(self)@.push(NodeView { tag: name@, body: None }));
                }
            },
            HtmlToken::Characters(text) => {
                let n: usize = self.nodes.len();
                if n > 0 && self.nodes[n - 1].body.is_none() {
                    let mut last = self.nodes.pop().unwrap();
                    assert(self@ =~= old(self)@.drop_last());
                    if !text.as_str().is_empty() {
                        last.body = Some(text.clone());
                        self.nodes.push(last);
                        assert(self@ =~= old(self)@.update(
                            n - 1,
                            old(self)@.last().with_body(text@),
                        ));
                    }
                }
            },
            HtmlToken::Other => {},
        }
    }
}

/// The nodes of a token sequence.
pub fn nodes_from_tokens(tokens: &Vec<HtmlToken>) -> (result: HtmlParseResult)
    ensures
        result@ == nodes_of(tokens_view(tokens@)),
{
    let mut result = HtmlParseResult::new();
    let ghost all = tokens_view(tokens@);
    let mut i: usize = 0;
    while i < tokens.len()
        invariant
            i <= tokens.len(),
            all == tokens_view(tokens@),
            result@ == nodes_of(all.take(i as int)),
        decreases tokens.len() - i,
    {
        result.process_token(&tokens[i]);
        proof {
            assert(all.take(i + 1).drop_last() =~= all.take(i as int));
            assert(all.take(i + 1).last() == tokens@[i as int]@);
        }
        i += 1;
    }
    assert(all.take(i as int) =~= all);
    result
}

/// Extracts the block elements of an HTML text. A text too long to be
/// tokenized has none.
pub fn parse_html(html: &str) -> (result: HtmlParseResult)
    ensures
        result@ == nodes_of_html(html@),
{
    match tokenize(html) {
        Some(tokens) => nodes_from_tokens(&tokens),
        None => HtmlParseResult::new(),
    }
}

} // verus!
