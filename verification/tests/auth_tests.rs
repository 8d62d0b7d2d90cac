use spotify_analysis::auth::{
    begin_authorization, callback_step, complete_authorization, is_issued_state, issue_state,
    redirect_target, required_scopes, AuthError, AuthorizationState, CallbackParams,
    CallbackStep, ClientSettings, Session, SessionPhase, TokenInfo, STATE_MIN_LEN,
};

fn text(s: &str) -> String {
    s.to_string()
}

fn params(state: &str, code: Option<&str>, error: Option<&str>) -> CallbackParams {
    CallbackParams { state: text(state), code: code.map(text), error: error.map(text) }
}

fn issued(state: &str) -> Option<AuthorizationState> {
    Some(AuthorizationState { value: text(state) })
}

fn token(access: &str) -> TokenInfo {
    TokenInfo {
        access_token: text(access),
        refresh_token: Some(text("refresh")),
        expires_in: 3600,
        expires_at: Some(1_600_000_000),
        scopes: vec![text("user-library-read"), text("playlist-modify-private")],
    }
}

fn settings() -> ClientSettings {
    ClientSettings { client_id: text("my-client"), redirect_uri: text("http://localhost:8080/spotify") }
}

#[test]
fn error_in_callback_is_provider_denied_whatever_else_it_holds() {
    for pending in [None, issued("abc"), issued("other")] {
        for code in [None, Some("xyz")] {
            for exchanged in [None, Some(token("t"))] {
                let p = params("abc", code, Some("access_denied"));
                assert_eq!(
                    complete_authorization(&pending, &p, exchanged),
                    Err(AuthError::ProviderDenied(text("access_denied")))
                );
                assert_eq!(
                    callback_step(&pending, &p),
                    CallbackStep::Reject(AuthError::ProviderDenied(text("access_denied")))
                );
            }
        }
    }
}

#[test]
fn empty_error_in_callback_is_still_provider_denied() {
    let p = params("abc", Some("xyz"), Some(""));
    assert_eq!(
        complete_authorization(&issued("abc"), &p, Some(token("t"))),
        Err(AuthError::ProviderDenied(text("")))
    );
}

#[test]
fn callback_without_error_and_code_is_missing_code() {
    for pending in [None, issued("abc"), issued("other")] {
        let p = params("abc", None, None);
        assert_eq!(complete_authorization(&pending, &p, None), Err(AuthError::MissingCode));
        assert_eq!(complete_authorization(&pending, &p, Some(token("t"))), Err(AuthError::MissingCode));
        assert_eq!(callback_step(&pending, &p), CallbackStep::Reject(AuthError::MissingCode));
    }
}

#[test]
fn callback_with_another_state_is_state_mismatch_before_any_exchange() {
    let pending = issued("issued0000000000000001");
    let p = params("other", Some("xyz"), None);
    assert_eq!(callback_step(&pending, &p), CallbackStep::Reject(AuthError::StateMismatch));
    assert_eq!(complete_authorization(&pending, &p, Some(token("t"))), Err(AuthError::StateMismatch));
    assert_eq!(complete_authorization(&pending, &p, None), Err(AuthError::StateMismatch));
    assert_ne!(AuthError::StateMismatch, AuthError::InvalidCode);
}

#[test]
fn callback_without_issued_state_is_state_mismatch() {
    let p = params("abc", Some("xyz"), None);
    assert_eq!(callback_step(&None, &p), CallbackStep::Reject(AuthError::StateMismatch));
    assert_eq!(complete_authorization(&None, &p, Some(token("t"))), Err(AuthError::StateMismatch));
}

#[test]
fn state_is_compared_whole_and_with_case() {
    let pending = issued("abcDEF");
    assert!(is_issued_state(&pending, &text("abcDEF")));
    assert!(!is_issued_state(&pending, &text("abcdef")));
    assert!(!is_issued_state(&pending, &text("abcDE")));
    assert!(!is_issued_state(&pending, &text("abcDEFG")));
    assert!(!is_issued_state(&pending, &text("")));
    assert!(!is_issued_state(&None, &text("")));
    assert!(!is_issued_state(&None, &text("abcDEF")));
}

#[test]
fn exchange_that_yields_nothing_is_invalid_code() {
    let p = params("abc", Some("xyz"), None);
    assert_eq!(callback_step(&issued("abc"), &p), CallbackStep::Exchange(text("xyz")));
    assert_eq!(complete_authorization(&issued("abc"), &p, None), Err(AuthError::InvalidCode));
}

#[test]
fn exchange_that_yields_a_token_returns_it() {
    let p = params("abc", Some("xyz"), None);
    assert_eq!(complete_authorization(&issued("abc"), &p, Some(token("granted"))), Ok(token("granted")));
}

#[test]
fn required_scopes_are_the_two_fixed_ones() {
    assert_eq!(required_scopes(), vec![text("user-library-read"), text("playlist-modify-private")]);
}

#[test]
fn issued_state_is_long_enough_and_of_letters_and_digits() {
    let state = issue_state();
    assert_eq!(state.value.chars().count(), 32);
    assert!(state.value.chars().count() >= STATE_MIN_LEN);
    assert_eq!(STATE_MIN_LEN, 22);
    assert!(state.value.chars().all(|c| c.is_ascii_alphanumeric()));
}

#[test]
fn begin_authorization_issues_state_and_authorize_url() {
    let target = begin_authorization(&settings()).expect("an authorize URL");
    let state = &target.state.value;
    assert_eq!(state.chars().count(), 32);
    assert!(state.chars().all(|c| c.is_ascii_alphanumeric()));
    assert!(target.location.starts_with("https://accounts.spotify.com/authorize?"));
    assert!(target.location.contains(&format!("state={}", state)));
    assert!(target.location.contains("client_id=my-client"));
    assert!(target.location.contains("response_type=code"));
    assert!(target.location.contains("user-library-read"));
    assert!(target.location.contains("playlist-modify-private"));
    assert!(
        target.location.contains("scope=user-library-read+playlist-modify-private")
            || target.location.contains("scope=playlist-modify-private+user-library-read")
    );
    assert_ne!(target.location, settings().client_id);
    assert_ne!(target.location, settings().redirect_uri);
    assert_ne!(&target.location, state);
}

#[test]
fn begin_authorization_succeeds_for_any_settings() {
    for (id, uri) in [("", ""), ("id with spaces & signs", "not a url"), ("x", "https://h/?a=b#c")] {
        let settings = ClientSettings { client_id: text(id), redirect_uri: text(uri) };
        let target = begin_authorization(&settings).expect("an authorize URL");
        assert!(target.location.starts_with("https://accounts.spotify.com/authorize?"));
        assert!(target.location.contains(&format!("state={}", target.state.value)));
    }
}

#[test]
fn each_authorization_gets_a_state_of_its_own() {
    let first = begin_authorization(&settings()).expect("an authorize URL");
    let second = begin_authorization(&settings()).expect("an authorize URL");
    assert_ne!(first.state, second.state);
}

#[test]
fn redirect_target_keeps_state_and_url() {
    let state = AuthorizationState { value: text("abcdefgh12345678abcdef") };
    let target = redirect_target(state.clone(), Ok(text("https://accounts.spotify.com/authorize?x=1")));
    let target = target.expect("a target");
    assert_eq!(target.state, state);
    assert_eq!(target.location, "https://accounts.spotify.com/authorize?x=1");
}

#[test]
fn redirect_target_is_none_without_url() {
    let state = AuthorizationState { value: text("abcdefgh12345678abcdef") };
    assert_eq!(redirect_target(state, Err(rspotify::ClientError::InvalidToken)), None);
}

#[test]
fn session_goes_from_anonymous_to_pending_to_authenticated() {
    let mut session = Session::anonymous();
    assert_eq!(session.phase(), SessionPhase::Anonymous);
    assert_eq!(session.stored_token(), None);
    assert_eq!(session.issued_state(), None);
    session.issue(AuthorizationState { value: text("abcdefgh12345678abcdef") });
    assert_eq!(session.phase(), SessionPhase::PendingCallback);
    assert_eq!(session.stored_token(), None);
    assert_eq!(session.issued_state(), issued("abcdefgh12345678abcdef"));
    let p = params("abcdefgh12345678abcdef", Some("code"), None);
    assert_eq!(session.callback_step(&p), CallbackStep::Exchange(text("code")));
    let done = session.finish_authorization(&p, Some(token("t")));
    assert_eq!(done, Ok(()));
    assert_eq!(session.phase(), SessionPhase::Authenticated);
    assert_eq!(session.stored_token(), Some(token("t")));
    assert_eq!(session.pending_state, None);
}

#[test]
fn issued_state_is_spent_by_the_callback_that_brings_a_token() {
    let mut session = Session::restored(None, issued("abcdefgh12345678abcdef"));
    let p = params("abcdefgh12345678abcdef", Some("code"), None);
    assert_eq!(session.finish_authorization(&p, Some(token("first"))), Ok(()));
    assert_eq!(session.finish_authorization(&p, Some(token("second"))), Err(AuthError::StateMismatch));
    assert_eq!(session.stored_token(), Some(token("first")));
}

#[test]
fn restarting_while_authenticated_keeps_token_until_overwritten() {
    let mut session = Session::restored(Some(token("old")), None);
    assert_eq!(session.phase(), SessionPhase::Authenticated);
    session.issue(AuthorizationState { value: text("abcdefgh12345678abcdef") });
    assert_eq!(session.phase(), SessionPhase::PendingCallback);
    assert_eq!(session.stored_token(), Some(token("old")));
    session.accept(token("new"));
    assert_eq!(session.phase(), SessionPhase::Authenticated);
    assert_eq!(session.stored_token(), Some(token("new")));
}

#[test]
fn failed_callback_leaves_session_as_it_was() {
    let before = || Session::restored(Some(token("old")), issued("abc"));
    let mut session = before();
    assert_eq!(
        session.finish_authorization(&params("abc", Some("xyz"), None), None),
        Err(AuthError::InvalidCode)
    );
    assert_eq!(session, before());
    assert_eq!(
        session.finish_authorization(&params("abc", None, None), Some(token("t"))),
        Err(AuthError::MissingCode)
    );
    assert_eq!(session, before());
    assert_eq!(
        session.finish_authorization(&params("abc", Some("xyz"), Some("denied")), Some(token("t"))),
        Err(AuthError::ProviderDenied(text("denied")))
    );
    assert_eq!(session, before());
    assert_eq!(
        session.finish_authorization(&params("other", Some("xyz"), None), Some(token("t"))),
        Err(AuthError::StateMismatch)
    );
    assert_eq!(session, before());
}

#[test]
fn restored_session_holds_what_the_store_held() {
    assert_eq!(Session::restored(None, None), Session::anonymous());
    assert_eq!(Session::restored(None, None).phase(), SessionPhase::Anonymous);
    let session = Session::restored(Some(token("t")), issued("abc"));
    assert_eq!(session.stored_token(), Some(token("t")));
    assert_eq!(session.issued_state(), issued("abc"));
    assert_eq!(session.phase(), SessionPhase::PendingCallback);
}

#[test]
fn token_clone_is_equal() {
    let t = token("t");
    assert_eq!(t.clone(), t);
    let bare = TokenInfo {
        access_token: text("a"),
        refresh_token: None,
        expires_in: 0,
        expires_at: None,
        scopes: vec![],
    };
    assert_eq!(bare.clone(), bare);
}
