//! What the client core asks of its shell: the effects of an update.
//!
//! The core decides; the shell performs. An update returns the effects to be
//! performed, in order, and the shell hands the outcome of each back as an
//! event.

use crate::auth::{option_session, Session, SessionView};
use crate::toc::option_text;
use vstd::prelude::*;

verus! {

/// The method of a request.
#[derive(Clone, Copy, Debug, PartialEq, Eq)]
pub enum HttpMethod {
    Get,
    Post,
}

/// The content type that a request names.
#[derive(Clone, Copy, Debug, PartialEq, Eq)]
pub enum ContentType {
    Plain,
    Html,
    Css,
}

impl ContentType {
    /// The media type as a header states it.
    pub open spec fn mime_text(self) -> Seq<char> {
        match self {
            ContentType::Plain => "text/plain;charset=utf-8"@,
            ContentType::Html => "text/html;charset=utf-8"@,
            ContentType::Css => "text/css;charset=utf-8"@,
        }
    }

    /// The media type as a header states it.
    pub fn mime(&self) -> (mime: &'static str)
        ensures
            mime@ == self.mime_text(),
    {
        match self {
            ContentType::Plain => "text/plain;charset=utf-8",
            ContentType::Html => "text/html;charset=utf-8",
            ContentType::Css => "text/css;charset=utf-8",
        }
    }
}

/// The event that the response to a request becomes.
#[derive(Clone, Debug, PartialEq, Eq)]
pub enum Reply {
    DisplayNote,
    RenderNoteResource,
    RenderCss,
    HandleLogin { instance: String, username: String },
}

/// The view of a [`Reply`].
pub enum ReplyView {
    DisplayNote,
    RenderNoteResource,
    RenderCss,
    HandleLogin { instance: Seq<char>, username: Seq<char> },
}

impl View for Reply {
    type V = ReplyView;

    open spec fn view(&self) -> ReplyView {
        match self {
            Reply::DisplayNote => ReplyView::DisplayNote,
            Reply::RenderNoteResource => ReplyView::RenderNoteResource,
            Reply::RenderCss => ReplyView::RenderCss,
            Reply::HandleLogin { instance, username } => ReplyView::HandleLogin {
                instance: instance@,
                username: username@,
            },
        }
    }
}

/// A request to the notes server.
#[derive(Clone, Debug, PartialEq, Eq)]
pub struct HttpRequest {
    pub method: HttpMethod,
    pub url: String,
    pub content_type: Option<ContentType>,
    /// The value of the `Cookie` header, if the request carries one.
    pub cookie: Option<String>,
    pub body: Option<String>,
    pub reply: Reply,
}

/// The view of an [`HttpRequest`].
pub struct RequestView {
    pub method: HttpMethod,
    pub url: Seq<char>,
    pub content_type: Option<ContentType>,
    pub cookie: Option<Seq<char>>,
    pub body: Option<Seq<char>>,
    pub reply: ReplyView,
}

impl View for HttpRequest {
    type V = RequestView;

    open spec fn view(&self) -> RequestView {
        RequestView {
            method: self.method,
            url: self.url@,
            content_type: self.content_type,
            cookie: option_text(self.cookie),
            body: option_text(self.body),
            reply: self.reply@,
        }
    }
}

/// One thing for the shell to do.
#[derive(Clone, Debug, PartialEq, Eq)]
pub enum Effect {
    /// Show the view again.
    Render,
    /// Send a request; its response comes back as the event that `reply` names.
    Http(HttpRequest),
    /// Read the stored session; it comes back as `Event::LoadSession`.
    ReadSession { key: String },
    /// Store the session, or erase the stored one with `None`; the outcome
    /// comes back as `Event::SaveSession`.
    WriteSession { key: String, session: Option<Session> },
}

/// The view of an [`Effect`].
pub enum EffectView {
    Render,
    Http(RequestView),
    ReadSession { key: Seq<char> },
    WriteSession { key: Seq<char>, session: Option<SessionView> },
}

impl View for Effect {
    type V = EffectView;

    open spec fn view(&self) -> EffectView {
        match self {
            Effect::Render => EffectView::Render,
            Effect::Http(request) => EffectView::Http(request@),
            Effect::ReadSession { key } => EffectView::ReadSession { key: key@ },
            Effect::WriteSession { key, session } => EffectView::WriteSession {
                key: key@,
                session: option_session(*session),
            },
        }
    }
}

/// The views of a sequence of effects, in the same order.
pub open spec fn effects_view(effects: Seq<Effect>) -> Seq<EffectView> {
    effects.map_values(|e: Effect| e@)
}

/// The key under which the session is stored.
pub open spec fn session_key() -> Seq<char> {
    "session"@
}

} // verus!
