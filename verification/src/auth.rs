//! Logging in: the request, and the session that the response grants.

use crate::app::{Model, ModelView};
use crate::effect::{
    effects_view, session_key, ContentType, Effect, EffectView, HttpMethod, HttpRequest, Reply,
    ReplyView, RequestView,
};
use crate::toc::option_text;
use crate::text::{
    before_first, chars_of, concat2, find_char, index_of_char, same_text, split_once,
    without_trailing,
};
use vstd::prelude::*;
use vstd::string::{StrSliceExecFns, StringExecFns};

verus! {

/// A session on a notes server.
#[derive(Debug, PartialEq, Eq)]
pub struct Session {
    /// The value of the session cookie.
    pub id: String,
    /// The address of the server, without a slash at its end.
    pub instance: String,
    pub username: String,
}

/// The view of a [`Session`].
pub struct SessionView {
    pub id: Seq<char>,
    pub instance: Seq<char>,
    pub username: Seq<char>,
}

impl View for Session {
    type V = SessionView;

    open spec fn view(&self) -> SessionView {
        SessionView { id: self.id@, instance: self.instance@, username: self.username@ }
    }
}

impl Clone for Session {
    fn clone(&self) -> (copy: Session)
        ensures
            copy@ == self@,
    {
        Session {
            id: self.id.clone(),
            instance: self.instance.clone(),
            username: self.username.clone(),
        }
    }
}

/// The view of an optional session.
pub open spec fn option_session(session: Option<Session>) -> Option<SessionView> {
    match session {
        Some(s) => Some(s@),
        None => None,
    }
}

/// What the core reads of the response to a login: the status and the values
/// of its `Set-Cookie` headers, in their order.
#[derive(Clone, Debug, PartialEq, Eq)]
pub struct LoginResponse {
    pub status: u16,
    pub cookies: Vec<String>,
}

/// The view of a [`LoginResponse`].
pub struct LoginResponseView {
    pub status: u16,
    pub cookies: Seq<Seq<char>>,
}

/// The characters of each string of a sequence.
pub open spec fn texts_view(texts: Seq<String>) -> Seq<Seq<char>> {
    texts.map_values(|t: String| t@)
}

impl View for LoginResponse {
    type V = LoginResponseView;

    open spec fn view(&self) -> LoginResponseView {
        LoginResponseView { status: self.status, cookies: texts_view(self.cookies@) }
    }
}

/// The view of an optional response.
pub open spec fn option_response(response: Option<LoginResponse>) -> Option<LoginResponseView> {
    match response {
        Some(r) => Some(r@),
        None => None,
    }
}

/// The name and the value that a `Set-Cookie` header sets: what stands before
/// the first `;`, split at its first `=`. A header without `=` there sets
/// nothing.
pub open spec fn cookie_pair(cookie: Seq<char>) -> Option<(Seq<char>, Seq<char>)> {
    split_once(before_first(cookie, ';'), '=')
}

/// The value of the first cookie called `session` among the headers.
pub open spec fn session_cookie(cookies: Seq<Seq<char>>) -> Option<Seq<char>>
    decreases cookies.len(),
{
    if cookies.len() == 0 {
        None
    } else {
        match cookie_pair(cookies[0]) {
            Some((name, value)) if name == session_key() => Some(value),
            _ => session_cookie(cookies.drop_first()),
        }
    }
}

/// The request that logs in: a `POST` to `/api/login` on the server, whose
/// address loses one slash at its end, with the credentials as its body, in
/// plain text.
pub open spec fn login_request(
    instance: Seq<char>,
    username: Seq<char>,
    password: Seq<char>,
) -> RequestView {
    RequestView {
        method: HttpMethod::Post,
        url: without_trailing(instance, '/') + "/api/login"@,
        content_type: Some(ContentType::Plain),
        cookie: None,
        body: Some("username="@ + username + "&password="@ + password),
        reply: ReplyView::HandleLogin { instance: without_trailing(instance, '/'), username },
    }
}

/// The session that a response grants: the response arrived, its status is
/// 200, and it sets a cookie called `session`.
pub open spec fn granted_session(
    response: Option<LoginResponseView>,
    instance: Seq<char>,
    username: Seq<char>,
) -> Option<SessionView> {
    match response {
        Some(r) => if r.status == 200 {
            match session_cookie(r.cookies) {
                Some(id) => Some(SessionView { id, instance, username }),
                None => None,
            }
        } else {
            None
        },
        None => None,
    }
}

/// The name and the value that a `Set-Cookie` header sets.
pub fn parse_cookie(cookie: &str) -> (pair: Option<(String, String)>)
    ensures
        match pair {
            Some((name, value)) => cookie_pair(cookie@) == Some((name@, value@)),
            None => cookie_pair(cookie@) is None,
        },
{
    let chars = chars_of(cookie);
    let end = find_char(&chars, ';', chars.len());
    let at = find_char(&chars, '=', end);
    proof {
        assert(chars@.take(chars@.len() as int) =~= chars@);
        assert(before_first(cookie@, ';') == cookie@.take(end as int));
    }
    if at < end {
        let name = cookie.substring_char(0, at);
        let value = cookie.substring_char(at + 1, end);
        proof {
            let head = cookie@.take(end as int);
            assert(head.take(at as int) =~= cookie@.subrange(0, at as int));
            assert(head.skip(at + 1) =~= cookie@.subrange(at + 1, end as int));
        }
        Some((name.to_owned(), value.to_owned()))
    } else {
        None
    }
}

/// The value of the first cookie called `session` among the headers.
pub fn find_session_cookie(cookies: &Vec<String>) -> (id: Option<String>)
    ensures
        option_text(id) == session_cookie(texts_view(cookies@)),
{
    let ghost all = texts_view(cookies@);
    let mut i: usize = 0;
    assert(all.skip(0) =~= all);
    while i < cookies.len()
        invariant
            i <= cookies.len(),
            all == texts_view(cookies@),
            session_cookie(all) == session_cookie(all.skip(i as int)),
        decreases cookies.len() - i,
    {
        proof {
            assert(all.skip(i as int)[0] == cookies@[i as int]@);
            assert(all.skip(i as int).drop_first() =~= all.skip(i + 1));
        }
        if let Some((name, value)) = parse_cookie(cookies[i].as_str()) {
            if same_text(name.as_str(), "session") {
                return Some(value);
            }
        }
        i += 1;
    }
    None
}

/// The server's address without one slash at its end.
pub fn strip_slash(instance: &str) -> (stripped: String)
    ensures
        stripped@ == without_trailing(instance@, '/'),
{
    let chars = chars_of(instance);
    let n: usize = chars.len();
    if n > 0 && chars[n - 1] == '/' {
        let stripped = instance.substring_char(0, n - 1);
        assert(instance@.subrange(0, n - 1) =~= instance@.drop_last());
        stripped.to_owned()
    } else {
        instance.to_owned()
    }
}

/// Asks the server to log in.
pub fn login(instance: &str, username: &str, password: &str) -> (effects: Vec<Effect>)
    ensures
        effects_view(effects@) == seq![
            EffectView::Http(login_request(instance@, username@, password@)),
        ],
{
    let server = strip_slash(instance);
    let url = concat2(server.as_str(), "/api/login");
    let mut body = concat2("username=", username);
    body.append("&password=");
    body.append(password);
    let request = HttpRequest {
        method: HttpMethod::Post,
        url,
        content_type: Some(ContentType::Plain),
        cookie: None,
        body: Some(body),
        reply: Reply::HandleLogin { instance: server, username: username.to_owned() },
    };
    let mut effects: Vec<Effect> = Vec::new();
    effects.push(Effect::Http(request));
    assert(effects_view(effects@) =~= seq![
        EffectView::Http(login_request(instance@, username@, password@)),
    ]);
    effects
}

/// Takes the response to a login. Where it grants a session, the session is
/// put in the model, stored, and the view shown again; else nothing happens.
pub fn handle_login(
    model: &mut Model,
    response: Option<LoginResponse>,
    instance: String,
    username: String,
) -> (effects: Vec<Effect>)
    ensures
        match granted_session(option_response(response), instance@, username@) {
            Some(session) => {
                &&& final(model)@ == ModelView { session: Some(session), ..old(model)@ }
                &&& effects_view(effects@) == seq![
                    EffectView::WriteSession { key: session_key(), session: Some(session) },
                    EffectView::Render,
                ]
            },
            None => final(model)@ == old(model)@ && effects_view(effects@) == Seq::<
                EffectView,
            >::empty(),
        },
{
    let mut effects: Vec<Effect> = Vec::new();
    assert(effects_view(effects@) =~= Seq::<EffectView>::empty());
    let response = match response {
        Some(response) => response,
        None => {
            return effects;
        },
    };
    if response.status != 200 {
        return effects;
    }
    if let Some(id) = find_session_cookie(&response.cookies) {
        let session = Session { id, instance, username };
        effects.push(
            Effect::WriteSession { key: "session".to_owned(), session: Some(session.clone()) },
        );
        effects.push(Effect::Render);
        assert(effects_view(effects@) =~= seq![
            EffectView::WriteSession { key: session_key(), session: Some(session@) },
            EffectView::Render,
        ]);
        model.session = Some(session);
    }
    effects
}

} // verus!
