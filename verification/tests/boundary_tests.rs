use spotify_analysis::aggregation::{Aggregation, ApiError, RemoteCall};
use spotify_analysis::auth::{
    AuthError, AuthorizationState, CallbackParams, ClientSettings, RedirectTarget, Session,
    SessionPhase, TokenInfo,
};
use spotify_analysis::boundary::{
    authorize_callback, authorize_start, begin_analysis, failure_reply, redirect_reply,
    start_reply, stored_reply, Failure, Reply, Route, PAGE_LIMIT, PAGE_OFFSET, STATUS_FOUND,
    STATUS_OK, STATUS_SERVER_ERROR, STATUS_UNAUTHORIZED,
};

fn text(s: &str) -> String {
    s.to_string()
}

fn issued(state: &str) -> Option<AuthorizationState> {
    Some(AuthorizationState { value: text(state) })
}

fn token(access: &str) -> TokenInfo {
    TokenInfo {
        access_token: text(access),
        refresh_token: None,
        expires_in: 3600,
        expires_at: None,
        scopes: vec![text("user-library-read")],
    }
}

fn plain(status: u16, body: &str) -> Reply {
    Reply { status, location: None, body: text(body) }
}

fn callback(state: &str, code: Option<&str>, error: Option<&str>) -> CallbackParams {
    CallbackParams { state: text(state), code: code.map(text), error: error.map(text) }
}

#[test]
fn callback_with_rejected_code_says_bad_code_and_leaves_session() {
    let mut session = Session::restored(None, issued("abc"));
    let reply = authorize_callback(&mut session, &callback("abc", Some("xyz"), None), None);
    assert_eq!(reply, plain(200, "Bad authorization code."));
    assert_eq!(session, Session::restored(None, issued("abc")));
}

#[test]
fn callback_with_rejected_code_keeps_an_earlier_token() {
    let mut session = Session::restored(Some(token("old")), issued("abc"));
    let reply = authorize_callback(&mut session, &callback("abc", Some("xyz"), None), None);
    assert_eq!(reply.body, "Bad authorization code.");
    assert_eq!(session, Session::restored(Some(token("old")), issued("abc")));
}

#[test]
fn callback_with_another_state_is_refused_and_stores_nothing() {
    let mut session = Session::restored(None, issued("issued0000000000000001"));
    let reply = authorize_callback(&mut session, &callback("other", Some("xyz"), None), Some(token("t")));
    assert_eq!(reply, plain(200, "Failed to authorize."));
    assert_eq!(session, Session::restored(None, issued("issued0000000000000001")));
    assert_eq!(session.stored_token(), None);
}

#[test]
fn callback_on_a_session_without_issued_state_is_refused() {
    let mut session = Session::anonymous();
    let reply = authorize_callback(&mut session, &callback("abc", Some("xyz"), None), Some(token("t")));
    assert_eq!(reply, plain(200, "Failed to authorize."));
    assert_eq!(session, Session::anonymous());
}

#[test]
fn callback_with_error_says_failed_to_authorize() {
    let mut session = Session::restored(None, issued("abc"));
    let params = callback("abc", Some("xyz"), Some("access_denied"));
    let reply = authorize_callback(&mut session, &params, Some(token("t")));
    assert_eq!(reply, plain(200, "Failed to authorize."));
    assert_eq!(session, Session::restored(None, issued("abc")));
}

#[test]
fn callback_without_code_says_bad_code() {
    let mut session = Session::anonymous();
    let reply = authorize_callback(&mut session, &callback("abc", None, None), None);
    assert_eq!(reply, plain(200, "Bad authorization code."));
    assert_eq!(session, Session::anonymous());
}

#[test]
fn callback_with_token_stores_it_and_redirects_home() {
    let mut session = Session::anonymous();
    session.issue(AuthorizationState { value: text("abcdefgh12345678abcdef") });
    let params = callback("abcdefgh12345678abcdef", Some("xyz"), None);
    let reply = authorize_callback(&mut session, &params, Some(token("granted")));
    assert_eq!(reply, Reply { status: 302, location: Some(text("/")), body: String::new() });
    assert_eq!(session.stored_token(), Some(token("granted")));
    assert_eq!(session.issued_state(), None);
    assert_eq!(session.phase(), SessionPhase::Authenticated);
}

#[test]
fn callback_overwrites_an_earlier_token() {
    let mut session = Session::restored(Some(token("old")), issued("s"));
    authorize_callback(&mut session, &callback("s", Some("xyz"), None), Some(token("new")));
    assert_eq!(session.stored_token(), Some(token("new")));
}

#[test]
fn analysis_without_session_token_is_not_logged_in() {
    let session = Session::anonymous();
    let reply = begin_analysis(&session).expect_err("no token, no analysis");
    assert_eq!(reply, plain(401, "Not logged in."));
}

#[test]
fn analysis_with_session_token_asks_for_the_fixed_page() {
    let session = Session::restored(Some(token("t")), None);
    let (found, run, call) = begin_analysis(&session).expect("a run");
    assert_eq!(found, token("t"));
    assert_eq!(run, Aggregation::AwaitingTracks { limit: 10, offset: 0 });
    assert_eq!(call, RemoteCall::SavedTracks { limit: 10, offset: 0 });
    assert_eq!((PAGE_LIMIT, PAGE_OFFSET), (10, 0));
}

#[test]
fn unreadable_session_on_the_analysis_route_is_a_server_error() {
    let reply = failure_reply(&Failure::Session(Route::Analysis));
    assert_eq!(reply, plain(500, "Internal error."));
    assert_ne!(reply.status, 200);
    assert_ne!(reply.status, 401);
}

#[test]
fn each_failure_has_its_status_and_text() {
    assert_eq!(
        failure_reply(&Failure::Auth(AuthError::ProviderDenied(text("access_denied")))),
        plain(200, "Failed to authorize.")
    );
    assert_eq!(failure_reply(&Failure::Auth(AuthError::StateMismatch)), plain(200, "Failed to authorize."));
    assert_eq!(failure_reply(&Failure::Auth(AuthError::MissingCode)), plain(200, "Bad authorization code."));
    assert_eq!(failure_reply(&Failure::Auth(AuthError::InvalidCode)), plain(200, "Bad authorization code."));
    assert_eq!(failure_reply(&Failure::Session(Route::AuthorizeCallback)), plain(200, "Internal error."));
    assert_eq!(failure_reply(&Failure::Session(Route::Analysis)), plain(500, "Internal error."));
    assert_eq!(failure_reply(&Failure::Session(Route::AuthorizeStart)), plain(500, "Internal error."));
    assert_eq!(failure_reply(&Failure::Unauthenticated), plain(401, "Not logged in."));
    assert_eq!(
        failure_reply(&Failure::Api(ApiError::Remote(text("http error: timed out")))),
        plain(500, "http error: timed out")
    );
    assert_eq!(
        failure_reply(&Failure::Api(ApiError::Unexpected)),
        plain(500, "Unexpected answer from the provider.")
    );
    assert_eq!((STATUS_FOUND, STATUS_OK, STATUS_UNAUTHORIZED, STATUS_SERVER_ERROR), (302, 200, 401, 500));
}

#[test]
fn stored_reply_stands_when_the_session_was_written() {
    let reply = redirect_reply(text("/"));
    assert_eq!(stored_reply(reply, true, Route::AuthorizeCallback), redirect_reply(text("/")));
    assert_eq!(stored_reply(plain(200, "x"), true, Route::Analysis), plain(200, "x"));
}

#[test]
fn stored_reply_is_internal_error_when_the_write_failed() {
    assert_eq!(
        stored_reply(redirect_reply(text("/")), false, Route::AuthorizeCallback),
        plain(200, "Internal error.")
    );
    assert_eq!(
        stored_reply(redirect_reply(text("https://x")), false, Route::AuthorizeStart),
        plain(500, "Internal error.")
    );
}

#[test]
fn redirect_reply_carries_its_location() {
    assert_eq!(
        redirect_reply(text("https://example.org/x")),
        Reply { status: 302, location: Some(text("https://example.org/x")), body: String::new() }
    );
}

#[test]
fn start_reply_records_state_and_redirects() {
    let mut session = Session::restored(Some(token("old")), issued("earlier"));
    let target = RedirectTarget {
        state: AuthorizationState { value: text("abcdefgh12345678abcdef") },
        location: text("https://accounts.spotify.com/authorize?state=abcdefgh12345678abcdef"),
    };
    let reply = start_reply(&mut session, Some(target));
    assert_eq!(reply.status, 302);
    assert_eq!(
        reply.location,
        Some(text("https://accounts.spotify.com/authorize?state=abcdefgh12345678abcdef"))
    );
    assert_eq!(reply.body, "");
    assert_eq!(session.issued_state(), issued("abcdefgh12345678abcdef"));
    assert_eq!(session.stored_token(), Some(token("old")));
    assert_eq!(session.phase(), SessionPhase::PendingCallback);
}

#[test]
fn start_reply_without_target_is_internal_error() {
    let mut session = Session::restored(Some(token("old")), None);
    let reply = start_reply(&mut session, None);
    assert_eq!(reply, plain(500, "Internal error."));
    assert_eq!(session, Session::restored(Some(token("old")), None));
}

#[test]
fn authorize_start_always_redirects_to_the_provider() {
    for before in [Session::anonymous(), Session::restored(Some(token("old")), issued("earlier"))] {
        let kept = before.stored_token();
        let mut session = before;
        let settings =
            ClientSettings { client_id: text("my-client"), redirect_uri: text("http://localhost:8080/spotify") };
        let reply = authorize_start(&mut session, &settings);
        assert_eq!(reply.status, 302);
        assert_eq!(reply.body, "");
        let location = reply.location.expect("a location");
        assert!(location.starts_with("https://accounts.spotify.com/authorize?"));
        let state = session.issued_state().expect("an issued state");
        assert!(state.value.chars().count() >= 22);
        assert!(state.value.chars().all(|c| c.is_ascii_alphanumeric()));
        assert!(location.contains(&format!("state={}", state.value)));
        assert!(location.contains("user-library-read"));
        assert!(location.contains("playlist-modify-private"));
        assert_eq!(session.phase(), SessionPhase::PendingCallback);
        assert_eq!(session.stored_token(), kept);
    }
}

#[test]
fn callback_that_follows_a_start_is_accepted_with_the_issued_state_only() {
    let settings = ClientSettings { client_id: text("id"), redirect_uri: text("http://localhost/cb") };
    let mut session = Session::anonymous();
    authorize_start(&mut session, &settings);
    let state = session.issued_state().expect("an issued state").value;
    let wrong = authorize_callback(&mut session, &callback("abc", Some("xyz"), None), Some(token("t")));
    assert_eq!(wrong, plain(200, "Failed to authorize."));
    assert_eq!(session.stored_token(), None);
    let right = authorize_callback(&mut session, &callback(&state, Some("xyz"), None), Some(token("t")));
    assert_eq!(right.status, 302);
    assert_eq!(session.stored_token(), Some(token("t")));
}
