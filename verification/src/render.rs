//! From markdown to the HTML that is shown: rendering, then sanitizing.
//!
//! Rendering is the work of `pulldown-cmark`, sanitizing that of `ammonia`.
//! This module states what the sanitizer is asked to let through, and keeps
//! from it the requests on which it would panic.

use crate::text::same_text;
use crate::token::{fits_tokenizer, MAX_INPUT_BYTES};
use crate::toc::option_text;
use vstd::prelude::*;
use vstd::utf8::{encode_utf8, is_ascii_chars_encode_utf8};

verus! {

/// The attributes that are let through on one tag.
#[derive(Debug, PartialEq, Eq)]
pub struct TagAttributes {
    pub tag: String,
    pub attributes: Vec<String>,
}

/// What the sanitizer lets through beyond what it lets through by itself.
#[derive(Debug, PartialEq, Eq)]
pub struct SanitizerPolicy {
    /// What is put before every `id`, so that none meets an id of the page.
    pub id_prefix: String,
    /// Further tags.
    pub tags: Vec<String>,
    /// Further attributes, tag by tag.
    pub tag_attributes: Vec<TagAttributes>,
}

/// The view of a [`SanitizerPolicy`].
pub struct PolicyView {
    pub id_prefix: Seq<char>,
    pub tags: Seq<Seq<char>>,
    pub tag_attributes: Seq<(Seq<char>, Seq<Seq<char>>)>,
}

/// The characters of each string of a sequence.
pub open spec fn names_view(names: Seq<String>) -> Seq<Seq<char>> {
    names.map_values(|n: String| n@)
}

impl View for TagAttributes {
    type V = (Seq<char>, Seq<Seq<char>>);

    open spec fn view(&self) -> (Seq<char>, Seq<Seq<char>>) {
        (self.tag@, names_view(self.attributes@))
    }
}

impl View for SanitizerPolicy {
    type V = PolicyView;

    open spec fn view(&self) -> PolicyView {
        PolicyView {
            id_prefix: self.id_prefix@,
            tags: names_view(self.tags@),
            tag_attributes: self.tag_attributes@.map_values(|t: TagAttributes| t@),
        }
    }
}

/// A tag whose content the sanitizer removes: it may not be let through.
pub open spec fn is_removed_tag(tag: Seq<char>) -> bool {
    tag == "script"@ || tag == "style"@
}

/// Whether the sanitizer takes the entry: its tag is not one whose content is
/// removed, and it does not let `rel` through on `a`, which the sanitizer
/// sets itself.
pub open spec fn entry_accepted(entry: (Seq<char>, Seq<Seq<char>>)) -> bool {
    !is_removed_tag(entry.0) && !(entry.0 == "a"@ && entry.1.contains("rel"@))
}

/// The longest prefix for ids, in bytes. The sanitizer joins the prefix and
/// an id in one buffer that counts its bytes in 32 bits and grows to the next
/// power of two; an id takes at most three times the bytes of the text.
pub const MAX_PREFIX_BYTES: usize = 0x2000_0000;

/// Whether the sanitizer takes the policy: the prefix is no longer than
/// [`MAX_PREFIX_BYTES`], no tag of removed content is let through, and every
/// entry is taken. On a policy that is not accepted the sanitizer panics.
pub open spec fn policy_accepted(policy: PolicyView) -> bool {
    &&& encode_utf8(policy.id_prefix).len() <= MAX_PREFIX_BYTES
    &&& forall|i: int| 0 <= i < policy.tags.len() ==> !is_removed_tag(#[trigger] policy.tags[i])
    &&& forall|i: int|
        0 <= i < policy.tag_attributes.len() ==> entry_accepted(#[trigger] policy.tag_attributes[i])
}

/// The HTML that `pulldown-cmark` renders a markdown text to, with every
/// extension of the parser switched on.
pub uninterp spec fn markdown_html(markdown: Seq<char>) -> Seq<char>;

/// The HTML that `ammonia` leaves of an HTML text under its default rules,
/// with the given prefix for ids and the given further tags and attributes.
pub uninterp spec fn sanitized_html(
    html: Seq<char>,
    id_prefix: Seq<char>,
    tags: Seq<Seq<char>>,
    tag_attributes: Seq<(Seq<char>, Seq<Seq<char>>)>,
) -> Seq<char>;

/// Parses the text with `pulldown_cmark::Parser::new_ext` under
/// `Options::all()` and writes it out with `pulldown_cmark::html::push_html`.
/// The text decides the result, and the contract names it [`markdown_html`].
#[verifier::external_body]
fn render_markdown(markdown: &str) -> (html: String)
    ensures
        html@ == markdown_html(markdown@),
{
    let mut html = String::new();
    let parser = pulldown_cmark::Parser::new_ext(markdown, pulldown_cmark::Options::all());
    pulldown_cmark::html::push_html(&mut html, parser);
    html
}

/// Configures `ammonia::Builder::default()` with `id_prefix`, `add_tags` and
/// `add_tag_attributes`, then calls `Builder::clean` and takes the document
/// as text. The arguments decide the result, and the contract names it
/// [`sanitized_html`]. `requires` keeps out what `clean` panics on: a tag of
/// `script` or `style` let through, `rel` let through on `a`, and a text or a
/// prefix for ids that its buffers cannot hold.
#[verifier::external_body]
fn clean_html(html: &str, policy: &SanitizerPolicy) -> (clean: String)
    requires
        fits_tokenizer(html@),
        policy_accepted(policy@),
    ensures
        clean@ == sanitized_html(
            html@,
            policy@.id_prefix,
            policy@.tags,
            policy@.tag_attributes,
        ),
{
    let mut builder = ammonia::Builder::default();
    builder.id_prefix(Some(policy.id_prefix.as_str()));
    builder.add_tags(policy.tags.iter());
    for entry in policy.tag_attributes.iter() {
        builder.add_tag_attributes(entry.tag.as_str(), entry.attributes.iter());
    }
    builder.clean(html).to_string()
}

/// Whether a tag is one whose content the sanitizer removes.
pub fn removed_tag(tag: &str) -> (removed: bool)
    ensures
        removed == is_removed_tag(tag@),
{
    same_text(tag, "script") || same_text(tag, "style")
}

/// Whether a list of names holds `name`.
pub fn holds_name(names: &Vec<String>, name: &str) -> (found: bool)
    ensures
        found == names_view(names@).contains(name@),
{
    let mut i: usize = 0;
    while i < names.len()
        invariant
            i <= names.len(),
            forall|j: int| 0 <= j < i ==> names_view(names@)[j] != name@,
        decreases names.len() - i,
    {
        if same_text(names[i].as_str(), name) {
            assert(names_view(names@)[i as int] == name@);
            return true;
        }
        i += 1;
    }
    false
}

/// Whether the sanitizer takes the policy.
pub fn accepts(policy: &SanitizerPolicy) -> (accepted: bool)
    ensures
        accepted == policy_accepted(policy@),
{
    if policy.id_prefix.as_str().as_bytes().len() > MAX_PREFIX_BYTES {
        return false;
    }
    let mut i: usize = 0;
    while i < policy.tags.len()
        invariant
            i <= policy.tags.len(),
            encode_utf8(policy@.id_prefix).len() <= MAX_PREFIX_BYTES,
            forall|j: int| 0 <= j < i ==> !is_removed_tag(#[trigger] policy@.tags[j]),
        decreases policy.tags.len() - i,
    {
        if removed_tag(policy.tags[i].as_str()) {
            assert(is_removed_tag(policy@.tags[i as int]));
            return false;
        }
        i += 1;
    }
    let mut k: usize = 0;
    while k < policy.tag_attributes.len()
        invariant
            k <= policy.tag_attributes.len(),
            encode_utf8(policy@.id_prefix).len() <= MAX_PREFIX_BYTES,
            forall|j: int| 0 <= j < policy@.tags.len() ==> !is_removed_tag(#[trigger] policy@.tags[j]),
            forall|j: int| 0 <= j < k ==> entry_accepted(#[trigger] policy@.tag_attributes[j]),
        decreases policy.tag_attributes.len() - k,
    {
        let entry = &policy.tag_attributes[k];
        assert(policy@.tag_attributes[k as int] == entry@);
        if removed_tag(entry.tag.as_str()) || (same_text(entry.tag.as_str(), "a") && holds_name(
            &entry.attributes,
            "rel",
        )) {
            assert(!entry_accepted(policy@.tag_attributes[k as int]));
            return false;
        }
        k += 1;
    }
    true
}

/// Sanitizes an HTML text under a policy. Returns `None` exactly when the
/// sanitizer does not take the policy (its prefix for ids is too long, or it
/// lets through what the sanitizer panics on) or the text is too long for it.
pub fn sanitize(html: &str, policy: &SanitizerPolicy) -> (clean: Option<String>)
    ensures
        option_text(clean) == (if fits_tokenizer(html@) && policy_accepted(policy@) {
            Some(
                sanitized_html(html@, policy@.id_prefix, policy@.tags, policy@.tag_attributes),
            )
        } else {
            None
        }),
{
    if html.as_bytes().len() <= MAX_INPUT_BYTES && accepts(policy) {
        Some(clean_html(html, policy))
    } else {
        None
    }
}

/// The policy for notes: ids get the prefix `ln-`; the headings `h1` to `h6`
/// keep their `id`; `audio` and `video` are let through, `video` with its
/// source, its size and its playback switches.
pub open spec fn note_policy_view() -> PolicyView {
    PolicyView {
        id_prefix: "ln-"@,
        tags: seq!["audio"@, "video"@],
        tag_attributes: seq![
            ("h1"@, seq!["id"@]),
            ("h2"@, seq!["id"@]),
            ("h3"@, seq!["id"@]),
            ("h4"@, seq!["id"@]),
            ("h5"@, seq!["id"@]),
            ("h6"@, seq!["id"@]),
            ("video"@, seq!["src"@, "autoplay"@, "loop"@, "controls"@, "muted"@, "width"@]),
        ],
    }
}

/// The sanitizer takes the policy for notes.
pub proof fn lemma_note_policy_accepted()
    ensures
        policy_accepted(note_policy_view()),
{
    reveal_strlit("script");
    reveal_strlit("style");
    reveal_strlit("a");
    reveal_strlit("audio");
    reveal_strlit("video");
    reveal_strlit("h1");
    reveal_strlit("h2");
    reveal_strlit("h3");
    reveal_strlit("h4");
    reveal_strlit("h5");
    reveal_strlit("h6");
    reveal_strlit("ln-");
    let policy = note_policy_view();
    assert(encode_utf8(policy.id_prefix).len() == 3) by {
        is_ascii_chars_encode_utf8("ln-"@);
    }
    assert("script"@[0] == 's' && "style"@[0] == 's' && "a"@.len() == 1);
    assert("audio"@[0] == 'a' && "video"@[0] == 'v');
    assert("h1"@[0] == 'h' && "h2"@[0] == 'h' && "h3"@[0] == 'h');
    assert("h4"@[0] == 'h' && "h5"@[0] == 'h' && "h6"@[0] == 'h');
    assert forall|i: int| 0 <= i < policy.tags.len() implies !is_removed_tag(
        #[trigger] policy.tags[i],
    ) by {
        assert(policy.tags[i][0] != 's');
    }
    assert forall|i: int| 0 <= i < policy.tag_attributes.len() implies entry_accepted(
        #[trigger] policy.tag_attributes[i],
    ) by {
        assert(policy.tag_attributes[i].0[0] != 's');
        assert(policy.tag_attributes[i].0.len() != 1);
    }
}

/// One entry of a policy: a tag and its attributes.
fn entry(tag: &str, attributes: Vec<String>) -> (entry: TagAttributes)
    ensures
        entry@ == (tag@, names_view(attributes@)),
{
    TagAttributes { tag: tag.to_owned(), attributes }
}

/// The list of the one name `id`.
fn id_only() -> (names: Vec<String>)
    ensures
        names_view(names@) == seq!["id"@],
{
    let names = vec!["id".to_owned()];
    assert(names_view(names@) =~= seq!["id"@]);
    names
}

/// The policy for notes.
pub fn note_policy() -> (policy: SanitizerPolicy)
    ensures
        policy@ == note_policy_view(),
        policy_accepted(policy@),
{
    let tags = vec!["audio".to_owned(), "video".to_owned()];
    let video = vec![
        "src".to_owned(),
        "autoplay".to_owned(),
        "loop".to_owned(),
        "controls".to_owned(),
        "muted".to_owned(),
        "width".to_owned(),
    ];
    assert(names_view(video@) =~= seq![
        "src"@,
        "autoplay"@,
        "loop"@,
        "controls"@,
        "muted"@,
        "width"@,
    ]);
    let tag_attributes = vec![
        entry("h1", id_only()),
        entry("h2", id_only()),
        entry("h3", id_only()),
        entry("h4", id_only()),
        entry("h5", id_only()),
        entry("h6", id_only()),
        entry("video", video),
    ];
    let policy = SanitizerPolicy { id_prefix: "ln-".to_owned(), tags, tag_attributes };
    proof {
        assert(policy@.tags =~= note_policy_view().tags);
        assert(policy@.tag_attributes =~= note_policy_view().tag_attributes);
        lemma_note_policy_accepted();
    }
    policy
}

/// The HTML of a note: its markdown rendered, then sanitized under the policy
/// for notes. There is none where the rendered text is too long for the
/// sanitizer.
pub open spec fn note_html(markdown: Seq<char>) -> Option<Seq<char>> {
    let raw = markdown_html(markdown);
    let policy = note_policy_view();
    if fits_tokenizer(raw) {
        Some(sanitized_html(raw, policy.id_prefix, policy.tags, policy.tag_attributes))
    } else {
        None
    }
}

/// Converts markdown to sanitized HTML.
pub fn convert_to_html(md_input: &str) -> (html: Option<String>)
    ensures
        option_text(html) == note_html(md_input@),
{
    let dirty_md = render_markdown(md_input);
    let policy = note_policy();
    sanitize(dirty_md.as_str(), &policy)
}

} // verus!
