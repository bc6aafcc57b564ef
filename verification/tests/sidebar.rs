use lazy_notes::sidebar::{toc_tree, toc_visible};
use lazy_notes::toc::TocHeading;

fn heading(level: u8, id: Option<&str>, text: Option<&str>) -> TocHeading {
    TocHeading { level, class_name: None, id: id.map(String::from), text: text.map(String::from) }
}

#[test]
fn empty_table_has_no_markup() {
    assert_eq!(toc_tree(&vec![]), "");
}

#[test]
fn one_heading_is_one_item() {
    assert_eq!(toc_tree(&vec![heading(3, Some("a"), Some("A"))]), "<li><a href=#a>A</a></li>");
    assert_eq!(toc_tree(&vec![heading(1, None, None)]), "<li><a href=#></a></li>");
}

#[test]
fn headings_of_one_rank_make_a_flat_list() {
    let toc = vec![heading(2, Some("a"), Some("A")), heading(2, Some("b"), Some("B"))];
    assert_eq!(toc_tree(&toc), "<li><a href=#a>A</a></li><li><a href=#b>B</a></li>");
}

#[test]
fn higher_rank_opens_and_lower_rank_closes() {
    let toc = vec![
        heading(1, Some("a"), Some("A")),
        heading(2, Some("b"), Some("B")),
        heading(3, Some("c"), Some("C")),
        heading(1, Some("d"), Some("D")),
        heading(1, Some("e"), Some("E")),
    ];
    assert_eq!(
        toc_tree(&toc),
        "<li><a href=#a>A</a></li>\
         <li><ul><li><a href=#b>B</a></li>\
         <li><ul><li><a href=#c>C</a></li>\
         </ul></li><li><a href=#d>D</a></li>\
         <li><a href=#e>E</a></li>\
         </ul></li>"
    );
}

#[test]
fn lower_rank_with_nothing_open_is_a_plain_item() {
    let toc = vec![heading(3, Some("a"), Some("A")), heading(1, Some("b"), Some("B"))];
    assert_eq!(toc_tree(&toc), "<li><a href=#a>A</a></li><li><a href=#b>B</a></li>");
}

#[test]
fn what_is_open_at_the_end_is_closed() {
    let toc = vec![heading(1, None, Some("A")), heading(2, None, Some("B")), heading(4, None, Some("C"))];
    assert_eq!(
        toc_tree(&toc),
        "<li><a href=#>A</a></li><li><ul><li><a href=#>B</a></li><li><ul><li><a href=#>C</a></li></ul></li></ul></li>"
    );
}

#[test]
fn deep_nesting_does_not_overflow() {
    let mut toc = Vec::new();
    for _ in 0..100 {
        for level in 1..=6 {
            toc.push(heading(level, None, None));
        }
    }
    let tree = toc_tree(&toc);
    assert_eq!(tree.matches("<li><ul>").count(), 500);
    assert_eq!(tree.matches("</ul></li>").count(), 500);
}

#[test]
fn table_is_shown_when_it_has_headings() {
    assert!(!toc_visible(&None));
    assert!(!toc_visible(&Some(vec![])));
    assert!(toc_visible(&Some(vec![heading(1, None, None)])));
}
