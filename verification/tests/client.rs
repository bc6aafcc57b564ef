use lazy_notes::app::{Event, Model, Note, StoredSession, ViewModel};
use lazy_notes::auth::{
    find_session_cookie, handle_login, login, parse_cookie, strip_slash, LoginResponse, Session,
};
use lazy_notes::effect::{ContentType, Effect, HttpMethod, HttpRequest, Reply};
use lazy_notes::note::MediaBuffer;
use lazy_notes::toc::TocHeading;

fn session(id: &str, instance: &str, username: &str) -> Session {
    Session { id: id.to_string(), instance: instance.to_string(), username: username.to_string() }
}

#[test]
fn login_sessionless() {
    let instance = "http://localhost:3000";
    let session_id = "sessionid123";

    let app = Note;
    let mut model = Model::default();

    // Provide login credentials
    let effects = app.update(
        Event::Login(instance.into(), "login_test".into(), "logintest123".into()),
        &mut model,
    );
    let req = match effects.into_iter().next().unwrap() {
        Effect::Http(req) => req,
        _ => panic!("Unexpected effect from event"),
    };

    // Make login HTTP request
    assert_eq!(req.method, HttpMethod::Post);
    assert_eq!(req.url, format!("{instance}/api/login"));
    assert_eq!(req.content_type.unwrap().mime(), "text/plain;charset=utf-8");
    assert_eq!(req.body, Some("username=login_test&password=logintest123".to_string()));
    assert_eq!(req.cookie, None);

    let (reply_instance, reply_username) = match req.reply {
        Reply::HandleLogin { instance, username } => (instance, username),
        _ => panic!("Unexpected effect from event"),
    };
    let response = LoginResponse { status: 200, cookies: vec![format!("session={session_id}")] };

    // Run login logic which takes HTTP response and saves session id
    let effects = app.update(
        Event::HandleLogin(Some(response), reply_instance, reply_username),
        &mut model,
    );
    match effects.into_iter().next().unwrap() {
        Effect::WriteSession { key, session } => {
            assert_eq!(key, "session");
            assert_eq!(session, Some(self::session(session_id, instance, "login_test")));
        }
        _ => panic!("Unexpected effect from event"),
    };
    let _ = app.update(Event::SaveSession, &mut model);

    assert!(model
        .session
        .as_ref()
        .is_some_and(|session| *session.id == *session_id && *session.instance == *instance));
}

#[test]
fn login_with_session() {
    let instance = "http://localhost:3000";
    let session_id = "sessionid123";

    let app = Note;
    let mut model = Model::default();

    // Response with success to load session
    let effects = app.update(
        Event::LoadSession(StoredSession::Found(session(session_id, instance, "login_test"))),
        &mut model,
    );
    assert_eq!(effects, vec![Effect::Render]);

    assert!(model
        .session
        .as_ref()
        .is_some_and(|session| *session.id == *session_id && *session.instance == *instance));
}

#[test]
fn get_note() {
    let instance = "http://localhost:3000";
    let session_id = "sessionid123";
    let username = "login_test123";

    let app = Note;
    let mut model = Model { css: None, buffer: None, note: None, session: None };

    // Provide test session
    let _ = app.update(
        Event::LoadSession(StoredSession::Found(session(session_id, instance, username))),
        &mut model,
    );

    assert!(model.session.as_ref().is_some_and(|session| *session.id == *session_id));

    let effects = app.update(Event::GetNote("/index.md".into()), &mut model);
    let req = match effects.into_iter().next().unwrap() {
        Effect::Http(req) => req,
        _ => panic!("Unexpected effect from event"),
    };
    assert_eq!(
        req,
        HttpRequest {
            method: HttpMethod::Get,
            url: "http://localhost:3000/login_test123/notes/index.md".to_string(),
            content_type: Some(ContentType::Html),
            cookie: Some("session=sessionid123".to_string()),
            body: None,
            reply: Reply::DisplayNote,
        }
    );
    assert_eq!(ContentType::Html.mime(), "text/html;charset=utf-8");

    let body = "<h1>Success</h1>";
    let _ = app.update(Event::DisplayNote(Some(body.to_string())), &mut model);

    let view = app.view(&model);
    assert_eq!(view.note, Some(body.into()));
    assert_eq!(
        view.toc,
        Some(vec![TocHeading {
            level: 1,
            class_name: None,
            id: None,
            text: Some("Success".to_string())
        }])
    );
}

#[test]
fn get_note_resource() {
    let instance = "http://localhost:3000";
    let session_id = "sessionid123";
    let username = "login_test123";

    let app = Note;
    let mut model = Model {
        css: None,
        buffer: None,
        note: None,
        session: Some(session(session_id, instance, username)),
    };

    // Create resource fetch event
    let effects = app.update(Event::GetNoteResource("/test.jpg".into()), &mut model);
    let req = match effects.into_iter().next().unwrap() {
        Effect::Http(req) => req,
        _ => panic!("Unexpected effect from event"),
    };
    assert_eq!(
        req,
        HttpRequest {
            method: HttpMethod::Get,
            url: "http://localhost:3000/test.jpg".to_string(),
            content_type: None,
            cookie: Some("session=sessionid123".to_string()),
            body: None,
            reply: Reply::RenderNoteResource,
        }
    );

    // Handle returned resource
    let media =
        MediaBuffer { mime_type: "image/jpeg".to_string(), buffer: "test".as_bytes().to_vec() };
    let effects = app.update(Event::RenderNoteResource(Some(media)), &mut model);
    assert_eq!(effects, vec![Effect::Render]);

    match app.view(&model).buffer.as_ref() {
        Some(buffer) => {
            assert!(buffer.mime_type == "image/jpeg");
            assert!(buffer.buffer.as_slice() == "test".as_bytes());
        }
        None => panic!("Buffer is None"),
    }
}

#[test]
fn fetches_without_a_session_ask_nothing() {
    let app = Note;
    let mut model = Model::default();
    assert_eq!(app.update(Event::GetNote("/index.md".into()), &mut model), vec![]);
    assert_eq!(app.update(Event::GetNoteResource("/a.png".into()), &mut model), vec![]);
    assert_eq!(app.update(Event::GetCss, &mut model), vec![]);
    assert_eq!(model, Model::default());
}

#[test]
fn css_is_fetched_and_kept() {
    let app = Note;
    let mut model = Model::default();
    model.session = Some(session("id", "https://notes.example", "bob"));
    assert_eq!(
        app.update(Event::GetCss, &mut model),
        vec![Effect::Http(HttpRequest {
            method: HttpMethod::Get,
            url: "https://notes.example/pkg/lazy-notes.css".to_string(),
            content_type: Some(ContentType::Css),
            cookie: None,
            body: None,
            reply: Reply::RenderCss,
        })]
    );
    assert_eq!(ContentType::Css.mime(), "text/css;charset=utf-8");
    assert_eq!(app.update(Event::RenderCss(Some("p {}".into())), &mut model), vec![Effect::Render]);
    assert_eq!(model.css, Some("p {}".to_string()));
    assert_eq!(app.update(Event::RenderCss(None), &mut model), vec![Effect::Render]);
    assert_eq!(model.css, None);
}

#[test]
fn failed_note_drops_the_session() {
    let app = Note;
    let mut model = Model::default();
    model.session = Some(session("id", "https://notes.example", "bob"));
    model.note = Some("<h1>old</h1>".to_string());
    model.css = Some("p {}".to_string());
    let effects = app.update(Event::DisplayNote(None), &mut model);
    assert_eq!(
        effects,
        vec![Effect::WriteSession { key: "session".to_string(), session: None }, Effect::Render]
    );
    assert_eq!(model.note, None);
    assert_eq!(model.session, None);
    assert_eq!(model.css, Some("p {}".to_string()));
}

#[test]
fn clear_forgets_the_note_only() {
    let app = Note;
    let mut model = Model::default();
    model.session = Some(session("id", "https://notes.example", "bob"));
    model.note = Some("<h1>old</h1>".to_string());
    assert_eq!(app.update(Event::Clear, &mut model), vec![Effect::Render]);
    assert_eq!(model.note, None);
    assert_eq!(model.session, Some(session("id", "https://notes.example", "bob")));
    assert_eq!(app.view(&model).toc, None);
}

#[test]
fn get_session_reads_the_store() {
    let app = Note;
    let mut model = Model::default();
    assert_eq!(
        app.update(Event::GetSession, &mut model),
        vec![Effect::ReadSession { key: "session".to_string() }]
    );
    assert_eq!(app.update(Event::LoadSession(StoredSession::Missing), &mut model), vec![Effect::Render]);
    assert_eq!(model, Model::default());
    assert_eq!(app.update(Event::SaveSession, &mut model), vec![]);
}

#[test]
fn empty_store_keeps_the_session() {
    let app = Note;
    let mut model = Model::default();
    model.session = Some(session("id", "https://notes.example", "bob"));
    assert_eq!(app.update(Event::LoadSession(StoredSession::Missing), &mut model), vec![Effect::Render]);
    assert_eq!(model.session, Some(session("id", "https://notes.example", "bob")));
}

#[test]
fn unreadable_store_drops_the_session() {
    let app = Note;
    let mut model = Model::default();
    model.session = Some(session("id", "https://notes.example", "bob"));
    model.note = Some("<p>kept</p>".to_string());
    assert_eq!(
        app.update(Event::LoadSession(StoredSession::Unreadable), &mut model),
        vec![Effect::Render]
    );
    assert_eq!(model.session, None);
    assert_eq!(model.note, Some("<p>kept</p>".to_string()));
}

#[test]
fn login_strips_one_trailing_slash() {
    assert_eq!(strip_slash("http://localhost:3000/"), "http://localhost:3000");
    assert_eq!(strip_slash("http://localhost:3000//"), "http://localhost:3000/");
    assert_eq!(strip_slash("http://localhost:3000"), "http://localhost:3000");
    assert_eq!(strip_slash(""), "");
    assert_eq!(strip_slash("/"), "");
    let effects = login("https://notes.example/", "bob", "secret");
    assert_eq!(
        effects,
        vec![Effect::Http(HttpRequest {
            method: HttpMethod::Post,
            url: "https://notes.example/api/login".to_string(),
            content_type: Some(ContentType::Plain),
            cookie: None,
            body: Some("username=bob&password=secret".to_string()),
            reply: Reply::HandleLogin {
                instance: "https://notes.example".to_string(),
                username: "bob".to_string()
            },
        })]
    );
}

#[test]
fn login_is_refused_without_a_session_cookie() {
    let cases = vec![
        None,
        Some(LoginResponse { status: 401, cookies: vec!["session=abc".to_string()] }),
        Some(LoginResponse { status: 200, cookies: vec![] }),
        Some(LoginResponse { status: 200, cookies: vec!["other=abc".to_string()] }),
        Some(LoginResponse { status: 200, cookies: vec!["session".to_string()] }),
        Some(LoginResponse { status: 200, cookies: vec!["a=b; session=abc".to_string()] }),
    ];
    for response in cases {
        let mut model = Model::default();
        let effects = handle_login(&mut model, response, "i".to_string(), "u".to_string());
        assert_eq!(effects, vec![]);
        assert_eq!(model, Model::default());
    }
}

#[test]
fn session_cookie_is_the_first_of_its_name() {
    let cookies = vec![
        "theme=dark; Path=/".to_string(),
        "session=first; HttpOnly; Path=/".to_string(),
        "session=second".to_string(),
    ];
    assert_eq!(find_session_cookie(&cookies), Some("first".to_string()));
    assert_eq!(find_session_cookie(&vec!["session=".to_string()]), Some(String::new()));
    assert_eq!(find_session_cookie(&vec!["session=a=b;c".to_string()]), Some("a=b".to_string()));
    assert_eq!(find_session_cookie(&vec![" session=a".to_string()]), None);
    assert_eq!(find_session_cookie(&vec![]), None);
}

#[test]
fn cookie_pairs() {
    assert_eq!(parse_cookie("a=b"), Some(("a".to_string(), "b".to_string())));
    assert_eq!(parse_cookie("a=b; c=d"), Some(("a".to_string(), "b".to_string())));
    assert_eq!(parse_cookie("a=b=c"), Some(("a".to_string(), "b=c".to_string())));
    assert_eq!(parse_cookie("=b"), Some((String::new(), "b".to_string())));
    assert_eq!(parse_cookie("a"), None);
    assert_eq!(parse_cookie("a; b=c"), None);
    assert_eq!(parse_cookie(""), None);
    assert_eq!(parse_cookie("é=ü;x"), Some(("é".to_string(), "ü".to_string())));
}

#[test]
fn view_shows_the_model() {
    let app = Note;
    let model = Model {
        css: Some("p {}".to_string()),
        buffer: Some(MediaBuffer { mime_type: "image/png".to_string(), buffer: vec![1, 2, 3] }),
        note: Some(r#"<h2 id="a">A</h2><p>text</p>"#.to_string()),
        session: Some(session("id", "https://notes.example", "bob")),
    };
    assert_eq!(
        app.view(&model),
        ViewModel {
            css: Some("p {}".to_string()),
            buffer: Some(MediaBuffer { mime_type: "image/png".to_string(), buffer: vec![1, 2, 3] }),
            toc: Some(vec![TocHeading {
                level: 2,
                class_name: None,
                id: Some("a".to_string()),
                text: Some("A".to_string())
            }]),
            note: Some(r#"<h2 id="a">A</h2><p>text</p>"#.to_string()),
            session: Some(session("id", "https://notes.example", "bob")),
        }
    );
    assert_eq!(app.view(&model), app.view(&model));
}
