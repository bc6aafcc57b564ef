use lazy_notes::nodes::{is_block_tag_name, nodes_from_tokens, parse_html, HtmlNode, HtmlParseResult};
use lazy_notes::token::HtmlToken;

fn node(tag: &str, body: Option<&str>) -> HtmlNode {
    HtmlNode { tag: tag.to_string(), body: body.map(String::from) }
}

fn open(name: &str, self_closing: bool) -> HtmlToken {
    HtmlToken::StartTag { name: name.to_string(), self_closing, attrs: vec![] }
}

#[test]
fn nodes_of_headings_and_paragraphs() {
    let result = parse_html("<h1>Title</h1><p>First</p><div>skipped</div><h3></h3><p>Second</p>");
    assert_eq!(
        result.nodes,
        vec![
            node("h1", Some("Title")),
            node("p", Some("First")),
            node("h3", None),
            node("p", Some("Second")),
        ]
    );
}

#[test]
fn nodes_of_plain_text_are_none() {
    assert_eq!(parse_html("no markup"), HtmlParseResult { nodes: vec![] });
    assert_eq!(parse_html(""), HtmlParseResult { nodes: vec![] });
}

#[test]
fn node_body_is_recorded_once() {
    let tokens = vec![
        open("p", false),
        HtmlToken::Characters("one".to_string()),
        HtmlToken::Characters("two".to_string()),
        HtmlToken::Characters(String::new()),
    ];
    assert_eq!(nodes_from_tokens(&tokens).nodes, vec![node("p", Some("one"))]);
}

#[test]
fn empty_run_discards_the_node() {
    let tokens = vec![
        open("h2", false),
        HtmlToken::Characters("kept".to_string()),
        open("p", false),
        HtmlToken::Characters(String::new()),
    ];
    assert_eq!(nodes_from_tokens(&tokens).nodes, vec![node("h2", Some("kept"))]);
}

#[test]
fn self_closing_node_is_excluded() {
    let tokens = vec![open("p", true), open("h1", true), HtmlToken::Characters("x".to_string())];
    assert_eq!(nodes_from_tokens(&tokens).nodes, vec![]);
    assert_eq!(parse_html("<p/><h4/>").nodes, vec![]);
}

#[test]
fn block_tags_are_headings_and_paragraph() {
    for name in ["h1", "h2", "h3", "h4", "h5", "h6", "p"] {
        assert!(is_block_tag_name(name));
    }
    for name in ["a", "div", "h7", "pp", "", "ul", "li", "H1"] {
        assert!(!is_block_tag_name(name));
    }
}

#[test]
fn node_extraction_is_repeatable() {
    let html = "<p>a</p><h2>b</h2>";
    assert_eq!(parse_html(html), parse_html(html));
}

#[test]
fn process_token_steps() {
    let mut result = HtmlParseResult::new();
    result.process_token(&HtmlToken::Characters("stray".to_string()));
    assert_eq!(result.nodes, vec![]);
    result.process_token(&open("p", false));
    assert_eq!(result.nodes, vec![node("p", None)]);
    result.process_token(&HtmlToken::Other);
    result.process_token(&HtmlToken::Characters("body".to_string()));
    assert_eq!(result.nodes, vec![node("p", Some("body"))]);
}
