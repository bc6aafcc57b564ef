//! The table of contents as nested list markup.
//!
//! The list follows the ranks as they come: a heading of a higher rank than
//! the one before it opens a list inside the list, a heading of a lower rank
//! closes one, if one is open. What is still open at the end is closed.

use crate::toc::{headings_view, option_text, HeadingView, TocHeading};
use vstd::prelude::*;
use vstd::string::StringExecFns;

verus! {

/// The text of an optional text: empty where there is none.
pub open spec fn text_or_empty(text: Option<Seq<char>>) -> Seq<char> {
    match text {
        Some(t) => t,
        None => Seq::empty(),
    }
}

/// The list item of a heading: a link to its id, showing its text.
pub open spec fn tree_item(heading: HeadingView) -> Seq<char> {
    "<li><a href=#"@ + text_or_empty(heading.id) + ">"@ + text_or_empty(heading.text)
        + "</a></li>"@
}

/// The markup that closes `open` lists.
pub open spec fn closers(open: nat) -> Seq<char>
    decreases open,
{
    if open == 0 {
        Seq::empty()
    } else {
        "</ul></li>"@ + closers((open - 1) as nat)
    }
}

/// The number of open lists after a heading of rank `level` that follows one
/// of rank `last`.
pub open spec fn open_after(level: u8, last: u8, open: nat) -> nat {
    if level > last {
        open + 1
    } else if level < last && open > 0 {
        (open - 1) as nat
    } else {
        open
    }
}

/// What a heading of rank `level` puts before its item when it follows one of
/// rank `last`.
pub open spec fn tree_turn(level: u8, last: u8, open: nat) -> Seq<char> {
    if level > last {
        "<li><ul>"@
    } else if level < last && open > 0 {
        "</ul></li>"@
    } else {
        Seq::empty()
    }
}

/// The markup of the headings that follow a heading of rank `last`, with
/// `open` lists open.
pub open spec fn tree_from(headings: Seq<HeadingView>, last: u8, open: nat) -> Seq<char>
    decreases headings.len(),
{
    if headings.len() == 0 {
        closers(open)
    } else {
        let first = headings[0];
        tree_turn(first.level, last, open) + tree_item(first) + tree_from(
            headings.drop_first(),
            first.level,
            open_after(first.level, last, open),
        )
    }
}

/// The markup of a table of contents. An empty table has none.
pub open spec fn toc_tree_of(headings: Seq<HeadingView>) -> Seq<char> {
    if headings.len() == 0 {
        Seq::empty()
    } else {
        tree_from(headings, headings[0].level, 0)
    }
}

/// Appends the text of an optional string.
fn append_or_empty(tree: &mut String, text: &Option<String>)
    ensures
        final(tree)@ == old(tree)@ + text_or_empty(option_text(*text)),
{
    match text {
        Some(t) => {
            tree.append(t.as_str());
        },
        None => {
            assert(tree@ + Seq::<char>::empty() =~= tree@);
        },
    }
}

/// Appends the list item of a heading.
fn append_item(tree: &mut String, heading: &TocHeading)
    ensures
        final(tree)@ == old(tree)@ + tree_item(heading@),
{
    tree.append("<li><a href=#");
    append_or_empty(tree, &heading.id);
    tree.append(">");
    append_or_empty(tree, &heading.text);
    tree.append("</a></li>");
    assert(tree@ =~= old(tree)@ + tree_item(heading@));
}

/// The markup of a table of contents.
pub fn toc_tree(toc: &Vec<TocHeading>) -> (tree: String)
    ensures
        tree@ == toc_tree_of(headings_view(toc@)),
{
    let mut tree = String::new();
    if toc.len() == 0 {
        return tree;
    }
    let ghost all = headings_view(toc@);
    let mut last_heading: u8 = toc[0].level;
    let mut nest_count: usize = 0;
    let mut i: usize = 0;
    assert(all.skip(0) =~= all);
    assert(all[0] == toc@[0]@);
    assert(tree@ + tree_from(all, last_heading, 0) =~= tree_from(all, last_heading, 0));
    while i < toc.len()
        invariant
            i <= toc.len(),
            nest_count <= i,
            all == headings_view(toc@),
            toc_tree_of(all) == tree@ + tree_from(
                all.skip(i as int),
                last_heading,
                nest_count as nat,
            ),
        decreases toc.len() - i,
    {
        let heading = &toc[i];
        let ghost before = tree@;
        let ghost open = nest_count as nat;
        let ghost rest = all.skip(i as int);
        proof {
            assert(rest[0] == heading@);
            assert(rest.drop_first() =~= all.skip(i + 1));
        }
        if heading.level > last_heading {
            tree.append("<li><ul>");
            nest_count += 1;
        } else if heading.level < last_heading && nest_count > 0 {
            tree.append("</ul></li>");
            nest_count -= 1;
        } else {
            assert(tree@ + Seq::<char>::empty() =~= tree@);
        }
        append_item(&mut tree, heading);
        proof {
            let turn = tree_turn(heading.level, last_heading, open);
            let tail = tree_from(all.skip(i + 1), heading.level, nest_count as nat);
            assert(tree@ == before + turn + tree_item(heading@));
            assert(before + (turn + tree_item(heading@) + tail) =~= (before + turn + tree_item(
                heading@,
            )) + tail);
        }
        last_heading = heading.level;
        i += 1;
    }
    assert(all.skip(i as int).len() == 0);
    while nest_count > 0
        invariant
            toc_tree_of(all) == tree@ + closers(nest_count as nat),
        decreases nest_count,
    {
        let ghost before = tree@;
        tree.append("</ul></li>");
        nest_count -= 1;
        assert(before + ("</ul></li>"@ + closers(nest_count as nat)) =~= (before + "</ul></li>"@)
            + closers(nest_count as nat));
    }
    assert(tree@ + Seq::<char>::empty() =~= tree@);
    tree
}

/// Whether there is a table of contents to show: there is one, and it is not
/// empty.
pub fn toc_visible(toc: &Option<Vec<TocHeading>>) -> (visible: bool)
    ensures
        visible == (toc matches Some(t) && t@.len() > 0),
{
    match toc {
        Some(t) => t.len() > 0,
        None => false,
    }
}

} // verus!
