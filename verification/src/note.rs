//! Fetching a note, its style sheet and its media.

use crate::app::{Model, ModelView};
use crate::auth::SessionView;
use crate::effect::{
    effects_view, session_key, ContentType, Effect, EffectView, HttpMethod, HttpRequest, Reply,
    ReplyView, RequestView,
};
use crate::text::concat2;
use crate::toc::option_text;
use vstd::prelude::*;
use vstd::string::StringExecFns;

verus! {

/// A piece of media and its type.
#[derive(Debug, PartialEq, Eq)]
pub struct MediaBuffer {
    pub mime_type: String,
    pub buffer: Vec<u8>,
}

/// The view of a [`MediaBuffer`].
pub struct MediaView {
    pub mime_type: Seq<char>,
    pub buffer: Seq<u8>,
}

impl View for MediaBuffer {
    type V = MediaView;

    open spec fn view(&self) -> MediaView {
        MediaView { mime_type: self.mime_type@, buffer: self.buffer@ }
    }
}

impl Clone for MediaBuffer {
    fn clone(&self) -> (copy: MediaBuffer)
        ensures
            copy@ == self@,
    {
        MediaBuffer { mime_type: self.mime_type.clone(), buffer: self.buffer.clone() }
    }
}

/// The view of an optional piece of media.
pub open spec fn option_media(media: Option<MediaBuffer>) -> Option<MediaView> {
    match media {
        Some(m) => Some(m@),
        None => None,
    }
}

/// The `Cookie` header of a session.
pub open spec fn session_header(session: SessionView) -> Seq<char> {
    "session="@ + session.id
}

/// The request for the note at `path`: the user's notes on the session's
/// server, as HTML, with the session's cookie.
pub open spec fn note_request(session: SessionView, path: Seq<char>) -> RequestView {
    RequestView {
        method: HttpMethod::Get,
        url: session.instance + "/"@ + session.username + "/notes"@ + path,
        content_type: Some(ContentType::Html),
        cookie: Some(session_header(session)),
        body: None,
        reply: ReplyView::DisplayNote,
    }
}

/// The request for the media at `path` on the session's server, with the
/// session's cookie and no content type.
pub open spec fn resource_request(session: SessionView, path: Seq<char>) -> RequestView {
    RequestView {
        method: HttpMethod::Get,
        url: session.instance + path,
        content_type: None,
        cookie: Some(session_header(session)),
        body: None,
        reply: ReplyView::RenderNoteResource,
    }
}

/// The request for the style sheet of the session's server.
pub open spec fn css_request(session: SessionView) -> RequestView {
    RequestView {
        method: HttpMethod::Get,
        url: session.instance + "/pkg/lazy-notes.css"@,
        content_type: Some(ContentType::Css),
        cookie: None,
        body: None,
        reply: ReplyView::RenderCss,
    }
}

/// The effects of a fetch: the request where there is a session, nothing
/// where there is none.
pub open spec fn fetch_effects(
    session: Option<SessionView>,
    request: spec_fn(SessionView) -> RequestView,
) -> Seq<EffectView> {
    match session {
        Some(s) => seq![EffectView::Http(request(s))],
        None => Seq::empty(),
    }
}

/// The one request, as a list of effects.
fn single_request(request: HttpRequest) -> (effects: Vec<Effect>)
    ensures
        effects_view(effects@) == seq![EffectView::Http(request@)],
{
    let mut effects: Vec<Effect> = Vec::new();
    effects.push(Effect::Http(request));
    assert(effects_view(effects@) =~= seq![EffectView::Http(request@)]);
    effects
}

/// No effect at all.
pub fn no_effects() -> (effects: Vec<Effect>)
    ensures
        effects_view(effects@) == Seq::<EffectView>::empty(),
{
    let effects: Vec<Effect> = Vec::new();
    assert(effects_view(effects@) =~= Seq::<EffectView>::empty());
    effects
}

/// The one effect that shows the view again.
pub fn render_only() -> (effects: Vec<Effect>)
    ensures
        effects_view(effects@) == seq![EffectView::Render],
{
    let mut effects: Vec<Effect> = Vec::new();
    effects.push(Effect::Render);
    assert(effects_view(effects@) =~= seq![EffectView::Render]);
    effects
}

/// Asks for the note at `path`. Without a session nothing is asked.
pub fn get_note(model: &Model, path: &str) -> (effects: Vec<Effect>)
    ensures
        effects_view(effects@) == fetch_effects(
            model@.session,
            |s: SessionView| note_request(s, path@),
        ),
{
    match &model.session {
        Some(session) => {
            let mut url = concat2(session.instance.as_str(), "/");
            url.append(session.username.as_str());
            url.append("/notes");
            url.append(path);
            single_request(
                HttpRequest {
                    method: HttpMethod::Get,
                    url,
                    content_type: Some(ContentType::Html),
                    cookie: Some(concat2("session=", session.id.as_str())),
                    body: None,
                    reply: Reply::DisplayNote,
                },
            )
        },
        None => no_effects(),
    }
}

/// What the response to a note request does to the model and asks of the
/// shell. With a body, the body is the note. Without one the session has
/// failed: the note and the session are dropped and the stored session is
/// erased. The view is shown again either way.
pub open spec fn note_displayed(model: ModelView, body: Option<Seq<char>>) -> (
    ModelView,
    Seq<EffectView>,
) {
    match body {
        Some(_) => (ModelView { note: body, ..model }, seq![EffectView::Render]),
        None => (
            ModelView { note: None, session: None, ..model },
            seq![
                EffectView::WriteSession { key: session_key(), session: None },
                EffectView::Render,
            ],
        ),
    }
}

/// Takes the response to a note request: its body, or `None` where the
/// request failed or the response had no body.
pub fn display_note(model: &mut Model, body: Option<String>) -> (effects: Vec<Effect>)
    ensures
        (final(model)@, effects_view(effects@)) == note_displayed(old(model)@, option_text(body)),
{
    let mut effects: Vec<Effect> = Vec::new();
    if body.is_none() {
        effects.push(Effect::WriteSession { key: "session".to_owned(), session: None });
        model.session = None;
    }
    model.note = body;
    effects.push(Effect::Render);
    proof {
        if body is None {
            assert(effects_view(effects@) =~= seq![
                EffectView::WriteSession { key: session_key(), session: None },
                EffectView::Render,
            ]);
        } else {
            assert(effects_view(effects@) =~= seq![EffectView::Render]);
        }
    }
    effects
}

/// Asks for the media at `path`. Without a session nothing is asked.
pub fn get_note_resource(model: &Model, path: &str) -> (effects: Vec<Effect>)
    ensures
        effects_view(effects@) == fetch_effects(
            model@.session,
            |s: SessionView| resource_request(s, path@),
        ),
{
    match &model.session {
        Some(session) => single_request(
            HttpRequest {
                method: HttpMethod::Get,
                url: concat2(session.instance.as_str(), path),
                content_type: None,
                cookie: Some(concat2("session=", session.id.as_str())),
                body: None,
                reply: Reply::RenderNoteResource,
            },
        ),
        None => no_effects(),
    }
}

/// Takes the response to a media request: the media, or `None` where the
/// request failed or the response named no type. The model holds what came,
/// and the view is shown again.
pub fn render_note_resource(model: &mut Model, media: Option<MediaBuffer>) -> (effects: Vec<
    Effect,
>)
    ensures
        final(model)@ == (ModelView { buffer: option_media(media), ..old(model)@ }),
        effects_view(effects@) == seq![EffectView::Render],
{
    model.buffer = media;
    render_only()
}

/// Asks for the style sheet. Without a session nothing is asked.
pub fn get_note_css(model: &Model) -> (effects: Vec<Effect>)
    ensures
        effects_view(effects@) == fetch_effects(model@.session, |s: SessionView| css_request(s)),
{
    match &model.session {
        Some(session) => single_request(
            HttpRequest {
                method: HttpMethod::Get,
                url: concat2(session.instance.as_str(), "/pkg/lazy-notes.css"),
                content_type: Some(ContentType::Css),
                cookie: None,
                body: None,
                reply: Reply::RenderCss,
            },
        ),
        None => no_effects(),
    }
}

/// Takes the response to a style sheet request: its body, or `None` where the
/// request failed. The model holds what came, and the view is shown again.
pub fn render_css(model: &mut Model, body: Option<String>) -> (effects: Vec<Effect>)
    ensures
        final(model)@ == (ModelView { css: option_text(body), ..old(model)@ }),
        effects_view(effects@) == seq![EffectView::Render],
{
    model.css = body;
    render_only()
}

} // verus!
