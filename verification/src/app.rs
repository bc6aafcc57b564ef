//! The client core: its model, its events, and what each event does.

use crate::auth::{
    granted_session, handle_login, login, login_request, option_response, option_session,
    LoginResponse, LoginResponseView, Session, SessionView,
};
use crate::effect::{effects_view, session_key, Effect, EffectView};
use crate::note::{
    css_request, display_note, fetch_effects, get_note, get_note_css, get_note_resource,
    no_effects, note_displayed, note_request, option_media, render_css, render_note_resource,
    render_only, resource_request, MediaBuffer, MediaView,
};
use crate::toc::{generate_toc, headings_view, option_text, toc_of_html, HeadingView, TocHeading};
use vstd::prelude::*;

verus! {

/// What the client knows.
#[derive(Clone, Debug, PartialEq, Eq)]
pub struct Model {
    pub css: Option<String>,
    pub buffer: Option<MediaBuffer>,
    pub note: Option<String>,
    pub session: Option<Session>,
}

/// The view of a [`Model`].
pub struct ModelView {
    pub css: Option<Seq<char>>,
    pub buffer: Option<MediaView>,
    pub note: Option<Seq<char>>,
    pub session: Option<SessionView>,
}

impl View for Model {
    type V = ModelView;

    open spec fn view(&self) -> ModelView {
        ModelView {
            css: option_text(self.css),
            buffer: option_media(self.buffer),
            note: option_text(self.note),
            session: option_session(self.session),
        }
    }
}

impl Default for Model {
    fn default() -> (model: Model)
        ensures
            model@ == (ModelView { css: None, buffer: None, note: None, session: None }),
    {
        Model { css: None, buffer: None, note: None, session: None }
    }
}

/// What the client shows.
#[derive(Clone, Debug, PartialEq, Eq)]
pub struct ViewModel {
    pub css: Option<String>,
    pub buffer: Option<MediaBuffer>,
    pub toc: Option<Vec<TocHeading>>,
    pub note: Option<String>,
    pub session: Option<Session>,
}

/// The view of a [`ViewModel`].
pub struct ViewModelView {
    pub css: Option<Seq<char>>,
    pub buffer: Option<MediaView>,
    pub toc: Option<Seq<HeadingView>>,
    pub note: Option<Seq<char>>,
    pub session: Option<SessionView>,
}

impl View for ViewModel {
    type V = ViewModelView;

    open spec fn view(&self) -> ViewModelView {
        ViewModelView {
            css: option_text(self.css),
            buffer: option_media(self.buffer),
            toc: match self.toc {
                Some(toc) => Some(headings_view(toc@)),
                None => None,
            },
            note: option_text(self.note),
            session: option_session(self.session),
        }
    }
}

/// What reading the stored session gave.
#[derive(Clone, Debug, PartialEq, Eq)]
pub enum StoredSession {
    /// Nothing is stored.
    Missing,
    /// What is stored cannot be read as a session.
    Unreadable,
    /// The stored session.
    Found(Session),
}

/// The view of a [`StoredSession`].
pub enum StoredView {
    Missing,
    Unreadable,
    Found(SessionView),
}

impl View for StoredSession {
    type V = StoredView;

    open spec fn view(&self) -> StoredView {
        match self {
            StoredSession::Missing => StoredView::Missing,
            StoredSession::Unreadable => StoredView::Unreadable,
            StoredSession::Found(session) => StoredView::Found(session@),
        }
    }
}

/// What can happen to the client: what the user asks, and what comes back
/// from the shell.
#[derive(Clone, Debug, PartialEq, Eq)]
pub enum Event {
    /// Forget the note.
    Clear,
    /// Fetch the note at a path.
    GetNote(String),
    /// The body of the response to a note request, if there is one.
    DisplayNote(Option<String>),
    /// Fetch the media at a path.
    GetNoteResource(String),
    /// The media of the response to a media request, if there is any.
    RenderNoteResource(Option<MediaBuffer>),
    /// Fetch the style sheet.
    GetCss,
    /// The body of the response to a style sheet request, if there is one.
    RenderCss(Option<String>),
    /// Read the stored session.
    GetSession,
    /// Log in on a server, as a user, with a password.
    Login(String, String, String),
    /// The response to a login, if one arrived, with the server and the user.
    HandleLogin(Option<LoginResponse>, String, String),
    /// What reading the stored session gave.
    LoadSession(StoredSession),
    /// The session was written.
    SaveSession,
}

/// The view of an [`Event`].
pub enum EventView {
    Clear,
    GetNote(Seq<char>),
    DisplayNote(Option<Seq<char>>),
    GetNoteResource(Seq<char>),
    RenderNoteResource(Option<MediaView>),
    GetCss,
    RenderCss(Option<Seq<char>>),
    GetSession,
    Login(Seq<char>, Seq<char>, Seq<char>),
    HandleLogin(Option<LoginResponseView>, Seq<char>, Seq<char>),
    LoadSession(StoredView),
    SaveSession,
}

impl View for Event {
    type V = EventView;

    open spec fn view(&self) -> EventView {
        match self {
            Event::Clear => EventView::Clear,
            Event::GetNote(path) => EventView::GetNote(path@),
            Event::DisplayNote(body) => EventView::DisplayNote(option_text(*body)),
            Event::GetNoteResource(path) => EventView::GetNoteResource(path@),
            Event::RenderNoteResource(media) => EventView::RenderNoteResource(option_media(*media)),
            Event::GetCss => EventView::GetCss,
            Event::RenderCss(body) => EventView::RenderCss(option_text(*body)),
            Event::GetSession => EventView::GetSession,
            Event::Login(instance, username, password) => EventView::Login(
                instance@,
                username@,
                password@,
            ),
            Event::HandleLogin(response, instance, username) => EventView::HandleLogin(
                option_response(*response),
                instance@,
                username@,
            ),
            Event::LoadSession(stored) => EventView::LoadSession(stored@),
            Event::SaveSession => EventView::SaveSession,
        }
    }
}

/// The model after an event, and the effects of the event in their order.
pub open spec fn step(model: ModelView, event: EventView) -> (ModelView, Seq<EffectView>) {
    match event {
        EventView::Clear => (ModelView { note: None, ..model }, seq![EffectView::Render]),
        EventView::GetNote(path) => (
            model,
            fetch_effects(model.session, |s: SessionView| note_request(s, path)),
        ),
        EventView::DisplayNote(body) => note_displayed(model, body),
        EventView::GetNoteResource(path) => (
            model,
            fetch_effects(model.session, |s: SessionView| resource_request(s, path)),
        ),
        EventView::RenderNoteResource(media) => (
            ModelView { buffer: media, ..model },
            seq![EffectView::Render],
        ),
        EventView::GetCss => (
            model,
            fetch_effects(model.session, |s: SessionView| css_request(s)),
        ),
        EventView::RenderCss(body) => (ModelView { css: body, ..model }, seq![EffectView::Render]),
        EventView::GetSession => (model, seq![EffectView::ReadSession { key: session_key() }]),
        EventView::Login(instance, username, password) => (
            model,
            seq![EffectView::Http(login_request(instance, username, password))],
        ),
        EventView::HandleLogin(response, instance, username) => match granted_session(
            response,
            instance,
            username,
        ) {
            Some(session) => (
                ModelView { session: Some(session), ..model },
                seq![
                    EffectView::WriteSession { key: session_key(), session: Some(session) },
                    EffectView::Render,
                ],
            ),
            None => (model, Seq::empty()),
        },
        EventView::LoadSession(stored) => match stored {
            StoredView::Missing => (model, seq![EffectView::Render]),
            StoredView::Unreadable => (
                ModelView { session: None, ..model },
                seq![EffectView::Render],
            ),
            StoredView::Found(session) => (
                ModelView { session: Some(session), ..model },
                seq![EffectView::Render],
            ),
        },
        EventView::SaveSession => (model, Seq::empty()),
    }
}

/// What a model shows: its fields, and the table of contents of its note.
pub open spec fn shown(model: ModelView) -> ViewModelView {
    ViewModelView {
        css: model.css,
        buffer: model.buffer,
        toc: match model.note {
            Some(note) => Some(toc_of_html(note)),
            None => None,
        },
        note: model.note,
        session: model.session,
    }
}

/// The notes client.
#[derive(Clone, Copy, Debug, Default, PartialEq, Eq)]
pub struct Note;

impl Note {
    /// Takes an event: changes the model and returns the effects, as [`step`]
    /// says.
    pub fn update(&self, event: Event, model: &mut Model) -> (effects: Vec<Effect>)
        ensures
            (final(model)@, effects_view(effects@)) == step(old(model)@, event@),
    {
        match event {
            Event::Clear => {
                model.note = None;
                render_only()
            },
            Event::GetNote(path) => get_note(model, path.as_str()),
            Event::DisplayNote(body) => display_note(model, body),
            Event::GetNoteResource(path) => get_note_resource(model, path.as_str()),
            Event::RenderNoteResource(media) => render_note_resource(model, media),
            Event::GetCss => get_note_css(model),
            Event::RenderCss(body) => render_css(model, body),
            Event::GetSession => {
                let mut effects: Vec<Effect> = Vec::new();
                effects.push(Effect::ReadSession { key: "session".to_owned() });
                assert(effects_view(effects@) =~= seq![
                    EffectView::ReadSession { key: session_key() },
                ]);
                effects
            },
            Event::Login(instance, username, password) => login(
                instance.as_str(),
                username.as_str(),
                password.as_str(),
            ),
            Event::HandleLogin(response, instance, username) => handle_login(
                model,
                response,
                instance,
                username,
            ),
            Event::LoadSession(stored) => {
                match stored {
                    StoredSession::Missing => {},
                    StoredSession::Unreadable => {
                        model.session = None;
                    },
                    StoredSession::Found(session) => {
                        model.session = Some(session);
                    },
                }
                render_only()
            },
            Event::SaveSession => no_effects(),
        }
    }

    /// What the model shows.
    pub fn view(&self, model: &Model) -> (view: ViewModel)
        ensures
            view@ == shown(model@),
    {
        let toc = match &model.note {
            Some(note) => match generate_toc(note.as_str()) {
                Ok(toc) => Some(toc),
                Err(_) => None,
            },
            None => None,
        };
        ViewModel {
            css: match &model.css {
                Some(css) => Some(css.clone()),
                None => None,
            },
            buffer: match &model.buffer {
                Some(buffer) => Some(buffer.clone()),
                None => None,
            },
            toc,
            note: match &model.note {
                Some(note) => Some(note.clone()),
                None => None,
            },
            session: match &model.session {
                Some(session) => Some(session.clone()),
                None => None,
            },
        }
    }
}

} // verus!
