use lazy_notes::outline::{generate_toc_ids, ids_from_captures, level_of_digit};
use lazy_notes::validate::{is_html, TocError};

fn groups(parts: &[Option<&str>]) -> Vec<Option<String>> {
    parts.iter().map(|p| p.map(String::from)).collect()
}

#[test]
fn markdown_is_invalid_input() {
    assert_eq!(generate_toc_ids("# Markdown Title"), Err(TocError::InvalidInput));
    assert_eq!(TocError::InvalidInput.message(), "Invalid HTML".to_string());
}

#[test]
fn heading_without_id_is_excluded() {
    assert_eq!(generate_toc_ids(r#"<h1 class="test"></h1>"#), Ok(vec![]));
    assert_eq!(generate_toc_ids("<h1></h1>"), Ok(vec![]));
}

#[test]
fn ids_with_class_before_or_after() {
    let expected = Ok(vec![(1u8, "test".to_string())]);
    assert_eq!(generate_toc_ids(r#"<h1 id="test"></h1>"#), expected);
    assert_eq!(generate_toc_ids(r#"<h1 id="test" class="class"></h1>"#), expected);
    assert_eq!(generate_toc_ids(r#"<h1 class="class" id="test"></h1>"#), expected);
}

#[test]
fn ids_in_document_order() {
    let html = r#"<h1 id="test"></h1><h2 class="hello">hello</h2><h5 id="test2" class="success"></h5><h6 class="success" id="test3">test3</h6>"#;
    assert_eq!(
        generate_toc_ids(html),
        Ok(vec![(1, "test".to_string()), (5, "test2".to_string()), (6, "test3".to_string())])
    );
}

#[test]
fn ids_of_other_tags_are_not_headings() {
    assert_eq!(generate_toc_ids(r#"<h7 id="x"></h7><p id="y"></p><h0 id="z"></h0>"#), Ok(vec![]));
}

#[test]
fn ids_are_repeatable() {
    let html = r#"<h3 id="a">A</h3><h2 id="b">B</h2>"#;
    assert_eq!(generate_toc_ids(html), generate_toc_ids(html));
    assert_eq!(generate_toc_ids(html), Ok(vec![(3, "a".to_string()), (2, "b".to_string())]));
}

#[test]
fn captures_of_another_shape_are_skipped() {
    let matches = vec![
        groups(&[Some("<h2 id=\"a\">"), Some("2"), Some("a")]),
        groups(&[Some("whole"), Some("2")]),
        groups(&[Some("whole"), None, Some("b")]),
        groups(&[Some("whole"), Some("3"), None]),
        groups(&[Some("whole"), Some("7"), Some("c")]),
        groups(&[Some("whole"), Some("12"), Some("d")]),
        groups(&[Some("whole"), Some("6"), Some("e"), Some("extra")]),
    ];
    assert_eq!(ids_from_captures(&matches), vec![(2, "a".to_string()), (6, "e".to_string())]);
}

#[test]
fn digits_one_to_six_are_levels() {
    assert_eq!(level_of_digit("1"), Some(1));
    assert_eq!(level_of_digit("6"), Some(6));
    assert_eq!(level_of_digit("0"), None);
    assert_eq!(level_of_digit("7"), None);
    assert_eq!(level_of_digit(""), None);
    assert_eq!(level_of_digit("11"), None);
}

#[test]
fn html_syntax_is_recognised() {
    assert!(is_html("<p>text</p>"));
    assert!(is_html("<!-- comment -->"));
    assert!(!is_html("# Markdown Title"));
    assert!(!is_html(""));
}
