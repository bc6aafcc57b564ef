//! The heading extractor in its short form: ranks and ids by pattern.
//!
//! Where the sanitizer leaves on a heading tag nothing but an `id` and,
//! before or after it, a `class`, the headings that carry an `id` can be read
//! off the text with one pattern. Text and class are not recorded, and a
//! heading without an `id` is left out.

use crate::pattern::{find_captures, regex_captures, MatchGroups};
use crate::toc::heading_level;
use crate::validate::{is_html, plausible_html, TocError};
use vstd::prelude::*;
use vstd::string::StrSliceExecFns;

verus! {

/// The pattern of a heading tag that carries an `id`, with a `class` before
/// or after it or none: the rank is the first group, the id the second. No
/// attribute value runs past its closing quote.
pub open spec fn heading_pattern() -> Seq<char> {
    "<h([1-6]) (?:class=\"[^\"]*\" )?id=\"([^\"]+)\"(?: class=\"[^\"]*\")?>"@
}

/// The rank that a digit stands for: that of the heading tag `h` and the
/// digit.
pub open spec fn digit_level(digit: Seq<char>) -> Option<u8> {
    heading_level(seq!['h'] + digit)
}

/// The rank and id that one match gives: its first group read as a rank, its
/// second group as it stands. A match of another shape gives nothing.
pub open spec fn match_heading(groups: Seq<Option<Seq<char>>>) -> Option<(u8, Seq<char>)> {
    if groups.len() >= 3 && groups[1] is Some && groups[2] is Some && digit_level(groups[1]->0)
        is Some {
        Some((digit_level(groups[1]->0)->0, groups[2]->0))
    } else {
        None
    }
}

/// The ranks and ids of a sequence of matches, in its order.
pub open spec fn ids_of(matches: Seq<Seq<Option<Seq<char>>>>) -> Seq<(u8, Seq<char>)>
    decreases matches.len(),
{
    if matches.len() == 0 {
        Seq::empty()
    } else {
        match match_heading(matches.last()) {
            Some(heading) => ids_of(matches.drop_last()).push(heading),
            None => ids_of(matches.drop_last()),
        }
    }
}

/// The ranks and ids of an HTML text: those of the matches of
/// [`heading_pattern`], and none where the pattern is rejected.
pub open spec fn ids_of_html(html: Seq<char>) -> Seq<(u8, Seq<char>)> {
    match regex_captures(heading_pattern(), html) {
        Some(matches) => ids_of(matches),
        None => Seq::empty(),
    }
}

/// Every rank in the result is one of 1 to 6, and the result is no longer
/// than the sequence of matches.
pub proof fn lemma_ids_wf(matches: Seq<Seq<Option<Seq<char>>>>)
    ensures
        ids_of(matches).len() <= matches.len(),
        forall|k: int| 0 <= k < ids_of(matches).len() ==> 1 <= (#[trigger] ids_of(matches)[k]).0 <= 6,
    decreases matches.len(),
{
    if matches.len() > 0 {
        lemma_ids_wf(matches.drop_last());
        let before = ids_of(matches.drop_last());
        assert forall|k: int| 0 <= k < ids_of(matches).len() implies 1 <= (#[trigger] ids_of(
            matches,
        )[k]).0 <= 6 by {
            if k < before.len() {
                assert(1 <= before[k].0 <= 6);
            }
        }
    }
}

/// A match whose first or second group is missing, or whose first group is no
/// digit from 1 to 6, adds nothing.
pub proof fn lemma_match_without_id_excluded(
    matches: Seq<Seq<Option<Seq<char>>>>,
    groups: Seq<Option<Seq<char>>>,
)
    requires
        match_heading(groups) is None,
    ensures
        ids_of(matches.push(groups)) == ids_of(matches),
{
    assert(matches.push(groups).drop_last() =~= matches);
}

/// The rank that a digit stands for.
pub fn level_of_digit(digit: &str) -> (level: Option<u8>)
    ensures
        level == digit_level(digit@),
{
    proof {
        reveal_strlit("h1");
        reveal_strlit("h2");
        reveal_strlit("h3");
        reveal_strlit("h4");
        reveal_strlit("h5");
        reveal_strlit("h6");
    }
    if digit.unicode_len() != 1 {
        return None;
    }
    let c = digit.get_char(0);
    let level: Option<u8> = if c == '1' {
        Some(1)
    } else if c == '2' {
        Some(2)
    } else if c == '3' {
        Some(3)
    } else if c == '4' {
        Some(4)
    } else if c == '5' {
        Some(5)
    } else if c == '6' {
        Some(6)
    } else {
        None
    };
    proof {
        let name = seq!['h'] + digit@;
        assert(name.len() == 2 && name[0] == 'h' && name[1] == c);
        if level is Some {
            assert(name =~= seq!['h', c]);
            assert("h1"@ =~= seq!['h', '1']);
            assert("h2"@ =~= seq!['h', '2']);
            assert("h3"@ =~= seq!['h', '3']);
            assert("h4"@ =~= seq!['h', '4']);
            assert("h5"@ =~= seq!['h', '5']);
            assert("h6"@ =~= seq!['h', '6']);
        }
    }
    level
}

/// The ranks and ids of a sequence of matches.
pub fn ids_from_captures(matches: &Vec<MatchGroups>) -> (ids: Vec<(u8, String)>)
    ensures
        ids.deep_view() == ids_of(matches.deep_view()),
{
    let mut ids: Vec<(u8, String)> = Vec::new();
    let ghost all = matches.deep_view();
    let mut i: usize = 0;
    assert(ids.deep_view() =~= ids_of(all.take(0)));
    while i < matches.len()
        invariant
            i <= matches.len(),
            all == matches.deep_view(),
            ids.deep_view() == ids_of(all.take(i as int)),
        decreases matches.len() - i,
    {
        let groups = &matches[i];
        let ghost before = ids.deep_view();
        proof {
            assert(all.take(i + 1).drop_last() =~= all.take(i as int));
            assert(all.take(i + 1).last() == groups.deep_view());
            assert(groups.deep_view().len() == groups.len());
        }
        if groups.len() >= 3 {
            proof {
                assert(groups.deep_view()[1] == groups@[1].deep_view());
                assert(groups.deep_view()[2] == groups@[2].deep_view());
            }
            match (&groups[1], &groups[2]) {
                (Some(digit), Some(id)) => {
                    if let Some(level) = level_of_digit(digit.as_str()) {
                        ids.push((level, id.clone()));
                        assert(ids.deep_view() =~= before.push((level, id@)));
                    }
                },
                _ => {},
            }
        }
        i += 1;
    }
    assert(all.take(i as int) =~= all);
    ids
}

/// Generates the ranks and ids of the headings of an HTML text, in the order
/// of the text. Fails with [`TocError::InvalidInput`] exactly when the text
/// does not pass as HTML.
pub fn generate_toc_ids(html: &str) -> (toc: Result<Vec<(u8, String)>, TocError>)
    ensures
        !plausible_html(html@) ==> toc == Err::<Vec<(u8, String)>, TocError>(TocError::InvalidInput),
        plausible_html(html@) ==> toc is Ok && toc->Ok_0.deep_view() == ids_of_html(html@),
{
    if !is_html(html) {
        return Err(TocError::InvalidInput);
    }
    match find_captures("<h([1-6]) (?:class=\"[^\"]*\" )?id=\"([^\"]+)\"(?: class=\"[^\"]*\")?>", html) {
        Some(matches) => Ok(ids_from_captures(&matches)),
        None => {
            let ids: Vec<(u8, String)> = Vec::new();
            assert(ids.deep_view() =~= Seq::<(u8, Seq<char>)>::empty());
            Ok(ids)
        },
    }
}

} // verus!
