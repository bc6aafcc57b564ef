use lazy_notes::toc::{generate_toc, generate_toc_checked, toc_from_tokens, TocHeading, TocSink};
use lazy_notes::token::{tokenize, HtmlAttribute, HtmlToken};

fn heading(level: u8, class_name: Option<&str>, id: Option<&str>, text: Option<&str>) -> TocHeading {
    TocHeading {
        level,
        class_name: class_name.map(String::from),
        id: id.map(String::from),
        text: text.map(String::from),
    }
}

fn attr(name: &str, value: &str) -> HtmlAttribute {
    HtmlAttribute { name: name.to_string(), value: value.to_string() }
}

fn start(name: &str, attrs: Vec<HtmlAttribute>) -> HtmlToken {
    HtmlToken::StartTag { name: name.to_string(), self_closing: false, attrs }
}

fn chars(text: &str) -> HtmlToken {
    HtmlToken::Characters(text.to_string())
}

#[test]
fn toc_generation() {
    let invalid_html = "# Markdown Title";
    let basic_html = r#"<h1 id="test"></h1>"#;
    let html_no_id = r#"<h1></h1>"#;
    let html_only_class = r#"<h1 class="test"></h1>"#;
    let html_with_class_at_start = r#"<h1 class="class" id="test"></h1>"#;
    let html_with_class_at_end = r#"<h1 id="test" class="class"></h1>"#;
    let html_with_text = r#"<h1>test</h1>"#;
    let html_with_text_and_attrs = r#"<h1 id="test" class="test">test</h1>"#;
    let long_html = r#"<h1 id="test"></h1><h2 class="hello">hello</h2><h5 id="test2" class="success"></h5><h6 class="success" id="test3">test3</h6>"#;

    assert_eq!(generate_toc_checked(invalid_html), Err("Invalid HTML".to_string()));

    assert_eq!(
        generate_toc_checked(basic_html),
        Ok(vec![TocHeading {
            level: 1,
            class_name: None,
            id: Some(String::from("test")),
            text: None
        }])
    );

    assert_eq!(
        generate_toc_checked(html_no_id),
        Ok(vec![TocHeading { level: 1, class_name: None, id: None, text: None }])
    );

    assert_eq!(
        generate_toc_checked(html_only_class),
        Ok(vec![TocHeading {
            level: 1,
            class_name: Some(String::from("test")),
            id: None,
            text: None
        }])
    );

    assert_eq!(
        generate_toc_checked(html_with_class_at_start),
        Ok(vec![TocHeading {
            level: 1,
            class_name: Some(String::from("class")),
            id: Some(String::from("test")),
            text: None
        }])
    );

    assert_eq!(
        generate_toc_checked(html_with_class_at_end),
        Ok(vec![TocHeading {
            level: 1,
            class_name: Some(String::from("class")),
            id: Some(String::from("test")),
            text: None
        }])
    );

    assert_eq!(
        generate_toc_checked(html_with_text),
        Ok(vec![TocHeading {
            level: 1,
            class_name: None,
            id: None,
            text: Some(String::from("test"))
        }])
    );

    assert_eq!(
        generate_toc_checked(html_with_text_and_attrs),
        Ok(vec![TocHeading {
            level: 1,
            class_name: Some(String::from("test")),
            id: Some(String::from("test")),
            text: Some(String::from("test"))
        }])
    );

    assert_eq!(
        generate_toc_checked(long_html),
        Ok(vec![
            TocHeading {
                level: 1,
                class_name: None,
                id: Some(String::from("test")),
                text: None
            },
            TocHeading {
                level: 2,
                class_name: Some(String::from("hello")),
                id: None,
                text: Some(String::from("hello"))
            },
            TocHeading {
                level: 5,
                class_name: Some(String::from("success")),
                id: Some(String::from("test2")),
                text: None
            },
            TocHeading {
                level: 6,
                class_name: Some(String::from("success")),
                id: Some(String::from("test3")),
                text: Some(String::from("test3"))
            }
        ])
    );
}

#[test]
fn heading_with_id_only() {
    assert_eq!(
        generate_toc(r#"<h1 id="test"></h1>"#),
        Ok(vec![heading(1, None, Some("test"), None)])
    );
}

#[test]
fn heading_with_class_only() {
    assert_eq!(
        generate_toc(r#"<h1 class="test"></h1>"#),
        Ok(vec![heading(1, Some("test"), None, None)])
    );
}

#[test]
fn heading_with_id_and_class_in_either_order() {
    let expected = Ok(vec![heading(1, Some("class"), Some("test"), None)]);
    assert_eq!(generate_toc(r#"<h1 id="test" class="class"></h1>"#), expected);
    assert_eq!(generate_toc(r#"<h1 class="class" id="test"></h1>"#), expected);
}

#[test]
fn four_headings_in_document_order() {
    let toc = generate_toc(
        r#"<h1 id="test"></h1><h2 class="hello">hello</h2><h5 id="test2" class="success"></h5><h6 class="success" id="test3">test3</h6>"#,
    )
    .unwrap();
    let levels: Vec<u8> = toc.iter().map(|h| h.level).collect();
    assert_eq!(levels, vec![1, 2, 5, 6]);
    assert_eq!(toc[1].text, Some("hello".to_string()));
    assert_eq!(toc[3].text, Some("test3".to_string()));
    assert_eq!(toc[0].text, None);
    assert_eq!(toc[2].text, None);
}

#[test]
fn unchecked_generation_never_fails() {
    assert_eq!(generate_toc("# Markdown Title"), Ok(vec![]));
    assert_eq!(generate_toc(""), Ok(vec![]));
    assert_eq!(generate_toc("<h1"), Ok(vec![]));
    assert_eq!(generate_toc("<h2 id=\"a\">a</h2><h1 <<<"), Ok(vec![heading(2, None, Some("a"), Some("a"))]));
}

#[test]
fn order_is_not_by_level() {
    let toc = generate_toc("<h3>c</h3><h1>a</h1><h2>b</h2>").unwrap();
    assert_eq!(
        toc,
        vec![
            heading(3, None, None, Some("c")),
            heading(1, None, None, Some("a")),
            heading(2, None, None, Some("b")),
        ]
    );
}

#[test]
fn every_rank_maps_to_its_level() {
    for n in 1u8..=6 {
        let html = format!("<h{n} id=\"x\"></h{n}>");
        assert_eq!(generate_toc(&html), Ok(vec![heading(n, None, Some("x"), None)]));
    }
    assert_eq!(generate_toc("<h7 id=\"x\"></h7>"), Ok(vec![]));
    assert_eq!(generate_toc("<h0 id=\"x\"></h0>"), Ok(vec![]));
    assert_eq!(generate_toc("<p id=\"x\"></p>"), Ok(vec![]));
}

#[test]
fn text_is_recorded_once() {
    let mut sink = TocSink::new();
    sink.process_token(&start("h2", vec![]));
    assert_eq!(sink.headings, vec![heading(2, None, None, None)]);
    sink.process_token(&chars("first"));
    sink.process_token(&HtmlToken::Other);
    sink.process_token(&chars("second"));
    sink.process_token(&chars(""));
    assert_eq!(sink.headings, vec![heading(2, None, None, Some("first"))]);
}

#[test]
fn text_is_kept_verbatim() {
    let toc = generate_toc("<h1>  spaced out </h1>").unwrap();
    assert_eq!(toc, vec![heading(1, None, None, Some("  spaced out "))]);
}

#[test]
fn text_attaches_to_the_last_heading() {
    let toc = generate_toc("<h1></h1><p>paragraph</p>").unwrap();
    assert_eq!(toc, vec![heading(1, None, None, Some("paragraph"))]);
}

#[test]
fn characters_before_any_heading_are_ignored() {
    let mut sink = TocSink::new();
    sink.process_token(&chars("text"));
    sink.process_token(&chars(""));
    assert_eq!(sink.headings, vec![]);
}

#[test]
fn empty_run_discards_the_heading() {
    let tokens = vec![
        start("h1", vec![attr("id", "kept")]),
        chars("kept"),
        start("h2", vec![attr("id", "dropped")]),
        chars(""),
    ];
    assert_eq!(toc_from_tokens(&tokens), vec![heading(1, None, Some("kept"), Some("kept"))]);
}

#[test]
fn self_closing_heading_is_excluded() {
    let tokens = vec![
        HtmlToken::StartTag { name: "h1".to_string(), self_closing: true, attrs: vec![] },
        chars("text"),
    ];
    assert_eq!(toc_from_tokens(&tokens), vec![]);
    assert_eq!(generate_toc("<h1/>"), Ok(vec![]));
    assert_eq!(generate_toc(r#"<h3 id="a"/><h4 id="b">b</h4>"#), Ok(vec![heading(4, None, Some("b"), Some("b"))]));
}

#[test]
fn first_attribute_of_a_name_wins() {
    let tokens = vec![start(
        "h1",
        vec![attr("id", "one"), attr("class", ""), attr("id", "two"), attr("class", "late")],
    )];
    assert_eq!(toc_from_tokens(&tokens), vec![heading(1, Some(""), Some("one"), None)]);
}

#[test]
fn empty_attribute_value_is_recorded() {
    assert_eq!(
        generate_toc(r#"<h1 class="" id=""></h1>"#),
        Ok(vec![heading(1, Some(""), Some(""), None)])
    );
}

#[test]
fn extraction_is_repeatable() {
    let html = r#"<h1 id="a">A</h1><h2 class="b">B</h2><h3/>"#;
    assert_eq!(generate_toc(html), generate_toc(html));
    assert_eq!(generate_toc_checked(html), generate_toc_checked(html));
}

#[test]
fn set_text_replaces_the_text_only() {
    let mut h = heading(3, Some("c"), Some("i"), None);
    h.set_text("title");
    assert_eq!(h, heading(3, Some("c"), Some("i"), Some("title")));
}

#[test]
fn tokenizer_reports_tags_and_text() {
    let tokens = tokenize(r#"<h1 id="a" class="b">Hi</h1><br/>"#).unwrap();
    assert_eq!(
        tokens,
        vec![
            start("h1", vec![attr("id", "a"), attr("class", "b")]),
            chars("Hi"),
            HtmlToken::Other,
            HtmlToken::StartTag { name: "br".to_string(), self_closing: true, attrs: vec![] },
            HtmlToken::Other,
        ]
    );
}

#[test]
fn checked_generation_rejects_plain_text() {
    assert_eq!(generate_toc_checked(""), Err("Invalid HTML".to_string()));
    assert_eq!(generate_toc_checked("plain text"), Err("Invalid HTML".to_string()));
    assert_eq!(generate_toc_checked("<p>text</p>"), Ok(vec![]));
}
