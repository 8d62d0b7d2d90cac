//! The authorization-code flow and the credential it leaves in the session.
//!
//! A browser session is anonymous until a callback brings a code that the
//! provider exchanges for a token. Starting the flow issues a fresh state,
//! which the session records, and the provider's authorize URL. Completing it
//! turns the callback and the outcome of the exchange into a token or into
//! the reason for none; a callback that does not bring back the issued state
//! is refused before anything is exchanged. The exchange itself, and keeping
//! the session between requests, are the caller's work.

use vstd::prelude::*;
use crate::model::{copy_opt_text, copy_texts, opt_text, texts};

verus! {

/// Whether `c` is an ASCII letter or digit.
pub open spec fn is_alphanumeric(c: char) -> bool {
    ||| 'a' <= c <= 'z'
    ||| 'A' <= c <= 'Z'
    ||| '0' <= c <= '9'
}

/// Whether `s` is made of ASCII letters and digits only.
pub open spec fn is_alphanumeric_text(s: Seq<char>) -> bool {
    forall|i: int| 0 <= i < s.len() ==> is_alphanumeric(#[trigger] s[i])
}

/// Whether `c` stands in a URL's query as it is: an ASCII letter or digit, or
/// one of `*`, `-`, `.` and `_`.
pub open spec fn is_query_plain(c: char) -> bool {
    ||| is_alphanumeric(c)
    ||| c == '*'
    ||| c == '-'
    ||| c == '.'
    ||| c == '_'
}

/// Whether every character of `s` stands in a URL's query as it is.
pub open spec fn is_query_plain_text(s: Seq<char>) -> bool {
    forall|i: int| 0 <= i < s.len() ==> is_query_plain(#[trigger] s[i])
}

/// The least length of an authorization state. Each letter or digit is one of
/// 62, so 22 of them can tell apart more values than 16 bytes can.
pub const STATE_MIN_LEN: usize = 22;

/// Whether `s` can serve as an authorization state: letters and digits only,
/// and enough of them to carry 16 bytes.
pub open spec fn is_state_text(s: Seq<char>) -> bool {
    &&& s.len() >= STATE_MIN_LEN
    &&& is_alphanumeric_text(s)
}

/// Whether `text` begins with `prefix`.
pub open spec fn starts_with(text: Seq<char>, prefix: Seq<char>) -> bool {
    &&& prefix.len() <= text.len()
    &&& text.subrange(0, prefix.len() as int) == prefix
}

/// Whether `part` stands somewhere in `text`, unbroken.
pub open spec fn occurs_in(part: Seq<char>, text: Seq<char>) -> bool {
    exists|i: int|
        0 <= i && i + part.len() <= text.len() && #[trigger] text.subrange(i, i + part.len())
            == part
}

/// How every authorize URL begins.
pub open spec fn authorize_prefix() -> Seq<char> {
    "https://accounts.spotify.com/authorize?"@
}

/// The query parameter that carries `state` in an authorize URL.
pub open spec fn state_parameter(state: Seq<char>) -> Seq<char> {
    "state="@ + state
}

/// The scopes that every authorization asks for.
pub open spec fn scope_texts() -> Seq<Seq<char>> {
    seq!["user-library-read"@, "playlist-modify-private"@]
}

/// Whether `location` holds each of the scopes that every authorization asks for.
pub open spec fn carries_scopes(location: Seq<char>) -> bool {
    forall|i: int| 0 <= i < scope_texts().len() ==> occurs_in(#[trigger] scope_texts()[i], location)
}

/// Whether `location` is an authorize URL for `state`: it begins as every
/// authorize URL does, holds the state behind `state=`, and holds each of the
/// required scopes.
pub open spec fn is_authorize_location(location: Seq<char>, state: Seq<char>) -> bool {
    &&& starts_with(location, authorize_prefix())
    &&& occurs_in(state_parameter(state), location)
    &&& carries_scopes(location)
}

/// Each required scope is made of letters and hyphens, which a URL's query
/// holds as they are.
pub proof fn lemma_scopes_are_plain()
    ensures
        scope_texts().len() == 2,
        forall|i: int| 0 <= i < scope_texts().len() ==> is_query_plain_text(#[trigger] scope_texts()[i]),
{
    reveal_strlit("user-library-read");
    reveal_strlit("playlist-modify-private");
    assert(is_query_plain_text("user-library-read"@));
    assert(is_query_plain_text("playlist-modify-private"@));
}

/// The scopes that every authorization asks for.
pub fn required_scopes() -> (scopes: Vec<String>)
    ensures
        texts(scopes@) == scope_texts(),
{
    let mut scopes: Vec<String> = Vec::new();
    scopes.push("user-library-read".to_owned());
    scopes.push("playlist-modify-private".to_owned());
    assert(texts(scopes@) =~= scope_texts());
    scopes
}

/// What identifies this application to the provider.
#[derive(Debug, PartialEq, Eq)]
pub struct ClientSettings {
    pub client_id: String,
    /// Where the provider sends the browser back to.
    pub redirect_uri: String,
}

/// The unguessable value that ties a callback to the authorization that was started.
#[derive(Debug, PartialEq, Eq)]
pub struct AuthorizationState {
    pub value: String,
}

impl View for AuthorizationState {
    type V = Seq<char>;

    open spec fn view(&self) -> Seq<char> {
        self.value@
    }
}

impl AuthorizationState {
    /// A state as this library issues it: at least 16 letters and digits.
    pub open spec fn wf(&self) -> bool {
        is_state_text(self.value@)
    }
}

impl Clone for AuthorizationState {
    fn clone(&self) -> (r: Self)
        ensures
            r@ == self@,
    {
        AuthorizationState { value: self.value.clone() }
    }
}

/// Where to send the browser to authorize, and the state issued for it.
#[derive(Debug, PartialEq, Eq)]
pub struct RedirectTarget {
    pub state: AuthorizationState,
    pub location: String,
}

pub struct RedirectTargetView {
    pub state: Seq<char>,
    pub location: Seq<char>,
}

impl View for RedirectTarget {
    type V = RedirectTargetView;

    open spec fn view(&self) -> RedirectTargetView {
        RedirectTargetView { state: self.state@, location: self.location@ }
    }
}

/// The credential that the provider grants for a code.
#[derive(Debug, PartialEq, Eq)]
pub struct TokenInfo {
    pub access_token: String,
    pub refresh_token: Option<String>,
    /// For how many seconds the token was granted.
    pub expires_in: i64,
    /// When the token expires, in seconds since the Unix epoch, where that is known.
    pub expires_at: Option<i64>,
    /// The scopes that were granted.
    pub scopes: Vec<String>,
}

pub struct TokenInfoView {
    pub access_token: Seq<char>,
    pub refresh_token: Option<Seq<char>>,
    pub expires_in: i64,
    pub expires_at: Option<i64>,
    pub scopes: Seq<Seq<char>>,
}

impl View for TokenInfo {
    type V = TokenInfoView;

    open spec fn view(&self) -> TokenInfoView {
        TokenInfoView {
            access_token: self.access_token@,
            refresh_token: opt_text(self.refresh_token),
            expires_in: self.expires_in,
            expires_at: self.expires_at,
            scopes: texts(self.scopes@),
        }
    }
}

impl Clone for TokenInfo {
    fn clone(&self) -> (r: Self)
        ensures
            r@ == self@,
    {
        TokenInfo {
            access_token: self.access_token.clone(),
            refresh_token: copy_opt_text(&self.refresh_token),
            expires_in: self.expires_in,
            expires_at: self.expires_at,
            scopes: copy_texts(&self.scopes),
        }
    }
}

/// View of an optional token.
pub open spec fn opt_token(o: Option<TokenInfo>) -> Option<TokenInfoView> {
    match o {
        Some(token) => Some(token@),
        None => None,
    }
}

/// The query of the provider's callback.
#[derive(Debug, PartialEq, Eq)]
pub struct CallbackParams {
    pub state: String,
    pub code: Option<String>,
    pub error: Option<String>,
}

pub struct CallbackParamsView {
    pub state: Seq<char>,
    pub code: Option<Seq<char>>,
    pub error: Option<Seq<char>>,
}

impl View for CallbackParams {
    type V = CallbackParamsView;

    open spec fn view(&self) -> CallbackParamsView {
        CallbackParamsView {
            state: self.state@,
            code: opt_text(self.code),
            error: opt_text(self.error),
        }
    }
}

/// Why a callback gave no token.
#[derive(Debug, PartialEq, Eq)]
pub enum AuthError {
    /// The user or the provider refused the grant; the text is the provider's own.
    ProviderDenied(String),
    /// The callback carried neither an error nor a code.
    MissingCode,
    /// The callback's state is not the state that was issued to this session.
    StateMismatch,
    /// The provider gave no token for the code.
    InvalidCode,
}

pub enum AuthErrorView {
    ProviderDenied(Seq<char>),
    MissingCode,
    StateMismatch,
    InvalidCode,
}

impl View for AuthError {
    type V = AuthErrorView;

    open spec fn view(&self) -> AuthErrorView {
        match self {
            AuthError::ProviderDenied(text) => AuthErrorView::ProviderDenied(text@),
            AuthError::MissingCode => AuthErrorView::MissingCode,
            AuthError::StateMismatch => AuthErrorView::StateMismatch,
            AuthError::InvalidCode => AuthErrorView::InvalidCode,
        }
    }
}

/// What a callback calls for before anything is asked of the provider.
#[derive(Debug, PartialEq, Eq)]
pub enum CallbackStep {
    /// The callback is refused as it stands.
    Reject(AuthError),
    /// The code is to be exchanged for a token.
    Exchange(String),
}

pub enum CallbackStepView {
    Reject(AuthErrorView),
    Exchange(Seq<char>),
}

impl View for CallbackStep {
    type V = CallbackStepView;

    open spec fn view(&self) -> CallbackStepView {
        match self {
            CallbackStep::Reject(error) => CallbackStepView::Reject(error@),
            CallbackStep::Exchange(code) => CallbackStepView::Exchange(code@),
        }
    }
}

/// What a callback calls for in a session whose issued state is `pending`
/// (`None` where none was issued). An error from the provider refuses it,
/// whatever else it carries; without an error, a missing code refuses it;
/// with a code, a state other than the issued one refuses it; otherwise its
/// code is to be exchanged.
pub open spec fn callback_decision(
    pending: Option<Seq<char>>,
    params: CallbackParamsView,
) -> CallbackStepView {
    match params.error {
        Some(text) => CallbackStepView::Reject(AuthErrorView::ProviderDenied(text)),
        None => match params.code {
            None => CallbackStepView::Reject(AuthErrorView::MissingCode),
            Some(code) => if pending == Some(params.state) {
                CallbackStepView::Exchange(code)
            } else {
                CallbackStepView::Reject(AuthErrorView::StateMismatch)
            },
        },
    }
}

/// What a callback comes to in a session whose issued state is `pending`,
/// given what the exchange of its code yielded (`None` where it yielded
/// nothing, or where no exchange was made).
pub open spec fn authorization_outcome(
    pending: Option<Seq<char>>,
    params: CallbackParamsView,
    exchanged: Option<TokenInfoView>,
) -> Result<TokenInfoView, AuthErrorView> {
    match callback_decision(pending, params) {
        CallbackStepView::Reject(error) => Err(error),
        CallbackStepView::Exchange(_) => match exchanged {
            Some(token) => Ok(token),
            None => Err(AuthErrorView::InvalidCode),
        },
    }
}

/// View of the result of completing an authorization.
pub open spec fn outcome_view(r: Result<TokenInfo, AuthError>) -> Result<TokenInfoView, AuthErrorView> {
    match r {
        Ok(token) => Ok(token@),
        Err(error) => Err(error@),
    }
}

/// View of an optional state.
pub open spec fn opt_state(o: Option<AuthorizationState>) -> Option<Seq<char>> {
    match o {
        Some(state) => Some(state@),
        None => None,
    }
}

/// Whether `state` is the state that was issued.
pub fn is_issued_state(pending: &Option<AuthorizationState>, state: &String) -> (r: bool)
    ensures
        r == (opt_state(*pending) == Some(state@)),
{
    match pending {
        Some(issued) => issued.value == *state,
        None => false,
    }
}

/// Decides what a callback calls for, before anything is asked of the
/// provider. `pending` is the state that was issued to the session.
pub fn callback_step(pending: &Option<AuthorizationState>, params: &CallbackParams) -> (step:
    CallbackStep)
    ensures
        step@ == callback_decision(opt_state(*pending), params@),
{
    match &params.error {
        Some(text) => CallbackStep::Reject(AuthError::ProviderDenied(text.clone())),
        None => match &params.code {
            None => CallbackStep::Reject(AuthError::MissingCode),
            Some(code) => if is_issued_state(pending, &params.state) {
                CallbackStep::Exchange(code.clone())
            } else {
                CallbackStep::Reject(AuthError::StateMismatch)
            },
        },
    }
}

/// Completes an authorization: the token that the exchange of the callback's
/// code yielded, or the reason why there is none. `pending` is the state that
/// was issued to the session; `exchanged` is what the provider gave for the
/// code, and is not looked at where the callback is refused as it stands.
pub fn complete_authorization(
    pending: &Option<AuthorizationState>,
    params: &CallbackParams,
    exchanged: Option<TokenInfo>,
) -> (r: Result<TokenInfo, AuthError>)
    ensures
        outcome_view(r) == authorization_outcome(opt_state(*pending), params@, opt_token(exchanged)),
        params@.error.is_some() ==> r.is_err() && r.unwrap_err()@ == AuthErrorView::ProviderDenied(
            params@.error.unwrap(),
        ),
        params@.error.is_none() && params@.code.is_none() ==> r.is_err() && r.unwrap_err()@
            == AuthErrorView::MissingCode,
        params@.error.is_none() && params@.code.is_some() && opt_state(*pending) != Some(
            params@.state,
        ) ==> r.is_err() && r.unwrap_err()@ == AuthErrorView::StateMismatch,
{
    match callback_step(pending, params) {
        CallbackStep::Reject(error) => Err(error),
        CallbackStep::Exchange(_) => match exchanged {
            Some(token) => Ok(token),
            None => Err(AuthError::InvalidCode),
        },
    }
}

/// A callback that carries an error is refused as denied by the provider,
/// with the provider's text, whatever its other fields, whatever state was
/// issued and whatever an exchange would have yielded.
pub proof fn lemma_error_is_denied(
    pending: Option<Seq<char>>,
    params: CallbackParamsView,
    exchanged: Option<TokenInfoView>,
)
    requires
        params.error.is_some(),
    ensures
        authorization_outcome(pending, params, exchanged) == Err::<TokenInfoView, AuthErrorView>(
            AuthErrorView::ProviderDenied(params.error.unwrap()),
        ),
{
}

/// A callback that carries neither an error nor a code is refused for its missing code.
pub proof fn lemma_no_code_is_missing(
    pending: Option<Seq<char>>,
    params: CallbackParamsView,
    exchanged: Option<TokenInfoView>,
)
    requires
        params.error.is_none(),
        params.code.is_none(),
    ensures
        authorization_outcome(pending, params, exchanged) == Err::<TokenInfoView, AuthErrorView>(
            AuthErrorView::MissingCode,
        ),
{
}

/// A callback with a code and without an error, whose state is not the
/// issued one, is refused for its state before any exchange: what an
/// exchange would have yielded does not matter. So is every such callback
/// where no state was issued.
pub proof fn lemma_other_state_is_mismatch(
    pending: Option<Seq<char>>,
    params: CallbackParamsView,
    exchanged: Option<TokenInfoView>,
)
    requires
        params.error.is_none(),
        params.code.is_some(),
        pending != Some(params.state),
    ensures
        callback_decision(pending, params) == CallbackStepView::Reject(AuthErrorView::StateMismatch),
        authorization_outcome(pending, params, exchanged) == Err::<TokenInfoView, AuthErrorView>(
            AuthErrorView::StateMismatch,
        ),
{
}

/// A token comes out of a callback exactly if the callback carries a code, no
/// error and the issued state, and the exchange yielded one; it is then the
/// token that the exchange yielded.
pub proof fn lemma_token_needs_code_and_exchange(
    pending: Option<Seq<char>>,
    params: CallbackParamsView,
    exchanged: Option<TokenInfoView>,
)
    ensures
        authorization_outcome(pending, params, exchanged).is_ok() <==> (params.error.is_none()
            && params.code.is_some() && pending == Some(params.state) && exchanged.is_some()),
        authorization_outcome(pending, params, exchanged).is_ok() ==> authorization_outcome(
            pending,
            params,
            exchanged,
        ) == Ok::<TokenInfoView, AuthErrorView>(exchanged.unwrap()),
{
}

/// Where a browser session stands in the flow.
#[derive(Debug, PartialEq, Eq, Clone, Copy)]
pub enum SessionPhase {
    /// No token, and no authorization under way.
    Anonymous,
    /// A state was issued and its callback has not been accepted yet.
    PendingCallback,
    /// A token is stored and no authorization is under way.
    Authenticated,
}

/// What one browser session holds.
#[derive(Debug, PartialEq, Eq)]
pub struct Session {
    /// The state of the authorization under way, if one is.
    pub pending_state: Option<AuthorizationState>,
    /// The stored credential, if the session has one.
    pub token: Option<TokenInfo>,
}

pub struct SessionView {
    pub pending_state: Option<Seq<char>>,
    pub token: Option<TokenInfoView>,
}

impl View for Session {
    type V = SessionView;

    open spec fn view(&self) -> SessionView {
        SessionView { pending_state: opt_state(self.pending_state), token: opt_token(self.token) }
    }
}

/// The phase of a session: an authorization under way makes it pending,
/// whether or not an earlier token is still stored.
pub open spec fn phase_of(session: SessionView) -> SessionPhase {
    if session.pending_state.is_some() {
        SessionPhase::PendingCallback
    } else if session.token.is_some() {
        SessionPhase::Authenticated
    } else {
        SessionPhase::Anonymous
    }
}

impl Session {
    /// A session that holds nothing.
    pub fn anonymous() -> (session: Session)
        ensures
            session@ == (SessionView { pending_state: None, token: None }),
            phase_of(session@) == SessionPhase::Anonymous,
    {
        Session { pending_state: None, token: None }
    }

    /// The session that a store gives back: the stored token and the issued
    /// state, as far as the store holds them.
    pub fn restored(token: Option<TokenInfo>, pending_state: Option<AuthorizationState>) -> (session:
        Session)
        ensures
            session@ == (SessionView {
                pending_state: opt_state(pending_state),
                token: opt_token(token),
            }),
    {
        Session { pending_state, token }
    }

    /// A copy of the issued state, if an authorization is under way.
    pub fn issued_state(&self) -> (state: Option<AuthorizationState>)
        ensures
            opt_state(state) == self@.pending_state,
    {
        match &self.pending_state {
            Some(state) => Some(state.clone()),
            None => None,
        }
    }

    /// What a callback calls for on this session, before anything is asked
    /// of the provider. The session stays as it is.
    pub fn callback_step(&self, params: &CallbackParams) -> (step: CallbackStep)
        ensures
            step@ == callback_decision(self@.pending_state, params@),
    {
        callback_step(&self.pending_state, params)
    }

    /// Where the session stands in the flow.
    pub fn phase(&self) -> (phase: SessionPhase)
        ensures
            phase == phase_of(self@),
    {
        if self.pending_state.is_some() {
            SessionPhase::PendingCallback
        } else if self.token.is_some() {
            SessionPhase::Authenticated
        } else {
            SessionPhase::Anonymous
        }
    }

    /// A copy of the stored token, if the session has one.
    pub fn stored_token(&self) -> (token: Option<TokenInfo>)
        ensures
            opt_token(token) == self@.token,
    {
        match &self.token {
            Some(token) => Some(token.clone()),
            None => None,
        }
    }

    /// Records that an authorization was started with `state`. A stored token stays.
    pub fn issue(&mut self, state: AuthorizationState)
        ensures
            final(self)@ == (SessionView { pending_state: Some(state@), token: old(self)@.token }),
            phase_of(final(self)@) == SessionPhase::PendingCallback,
    {
        self.pending_state = Some(state);
    }

    /// Stores `token`, in place of an earlier one, and ends the authorization under way.
    pub fn accept(&mut self, token: TokenInfo)
        ensures
            final(self)@ == (SessionView { pending_state: None, token: Some(token@) }),
            phase_of(final(self)@) == SessionPhase::Authenticated,
    {
        self.pending_state = None;
        self.token = Some(token);
    }

    /// Handles a callback on this session: on success the token is stored,
    /// the issued state is spent and the session is authenticated; on failure
    /// the session stays as it was.
    pub fn finish_authorization(&mut self, params: &CallbackParams, exchanged: Option<TokenInfo>) -> (r:
        Result<(), AuthError>)
        ensures
            match authorization_outcome(old(self)@.pending_state, params@, opt_token(exchanged)) {
                Ok(token) => r.is_ok() && final(self)@ == (SessionView {
                    pending_state: None,
                    token: Some(token),
                }),
                Err(error) => r.is_err() && r.unwrap_err()@ == error && final(self)@ == old(self)@,
            },
    {
        match complete_authorization(&self.pending_state, params, exchanged) {
            Ok(token) => {
                self.accept(token);
                Ok(())
            },
            Err(error) => Err(error),
        }
    }
}

/// The provider client's error, `rspotify::ClientError`. Nothing is known of
/// its contents here: it is only told apart from a success.
#[verifier::external_type_specification]
#[verifier::external_body]
pub struct ExClientError(rspotify::ClientError);

/// Sixteen fresh characters, from `rspotify::OAuth::default()`, which fills
/// its `state` field with 16 characters drawn at random from the ASCII letters
/// and digits. Nothing is claimed of which characters come.
#[verifier::external_body]
fn fresh_state() -> (state: String)
    ensures
        state@.len() == 16,
        is_alphanumeric_text(state@),
{
    rspotify::OAuth::default().state
}

/// The provider's authorize URL for these values, from
/// `rspotify::AuthCodeSpotify::get_authorize_url` on a client with the
/// default configuration. The call fails only where the address to authorize
/// at does not parse as a URL; with the default configuration that address is
/// a constant which does, so a URL comes back. The order of its query
/// parameters differs from call to call, so of the URL the claim is only
/// this: it begins with the provider's authorize address and a question mark;
/// a state of letters and digits stands in it unchanged behind `state=`; and
/// each scope made of characters that a query holds as they are stands in it
/// unchanged.
#[verifier::external_body]
fn authorize_url(
    client_id: &String,
    redirect_uri: &String,
    state: &String,
    scopes: &Vec<String>,
) -> (r: Result<String, rspotify::ClientError>)
    ensures
        r.is_ok(),
        r matches Ok(url) ==> starts_with(url@, authorize_prefix()),
        r matches Ok(url) ==> (is_alphanumeric_text(state@) ==> occurs_in(
            state_parameter(state@),
            url@,
        )),
        r matches Ok(url) ==> forall|i: int|
            0 <= i < scopes@.len() && is_query_plain_text((#[trigger] scopes@[i])@) ==> occurs_in(
                scopes@[i]@,
                url@,
            ),
{
    let creds = rspotify::Credentials::new_pkce(client_id);
    let oauth = rspotify::OAuth {
        redirect_uri: redirect_uri.clone(),
        state: state.clone(),
        scopes: scopes.iter().cloned().collect(),
        proxies: None,
    };
    rspotify::AuthCodeSpotify::new(creds, oauth).get_authorize_url(false)
}

/// Issues a fresh authorization state: 32 letters and digits, drawn in two
/// halves.
pub fn issue_state() -> (state: AuthorizationState)
    ensures
        state.wf(),
        state@.len() == 32,
{
    let first = fresh_state();
    let second = fresh_state();
    let value = first.concat(second.as_str());
    assert(is_alphanumeric_text(value@)) by {
        assert forall|i: int| 0 <= i < value@.len() implies is_alphanumeric(#[trigger] value@[i]) by {
            if i < 16 {
                assert(value@[i] == first@[i]);
            } else {
                assert(value@[i] == second@[i - 16]);
            }
        }
    }
    AuthorizationState { value }
}

/// The redirect for an authorization that was started with `state`, given
/// what building the authorize URL came to: the URL with the state, or
/// nothing where no URL could be built.
pub fn redirect_target(state: AuthorizationState, url: Result<String, rspotify::ClientError>) -> (r:
    Option<RedirectTarget>)
    ensures
        match url {
            Ok(location) => r.is_some() && r.unwrap()@ == (RedirectTargetView {
                state: state@,
                location: location@,
            }),
            Err(_) => r.is_none(),
        },
{
    match url {
        Ok(location) => Some(RedirectTarget { state, location }),
        Err(_) => None,
    }
}

/// Starts an authorization: issues a fresh state and builds the provider's
/// authorize URL for it, asking for the scopes of `required_scopes`. There is
/// always a target; which state it carries is not decided here. The state is
/// well formed, and the target's location is an authorize URL that holds
/// that state and each required scope.
pub fn begin_authorization(settings: &ClientSettings) -> (r: Option<RedirectTarget>)
    ensures
        r.is_some(),
        r.unwrap().state.wf(),
        is_authorize_location(r.unwrap().location@, r.unwrap().state@),
{
    let state = issue_state();
    let scopes = required_scopes();
    proof {
        lemma_scopes_are_plain();
    }
    let url = authorize_url(&settings.client_id, &settings.redirect_uri, &state.value, &scopes);
    proof {
        let location = url.unwrap()@;
        assert forall|i: int| 0 <= i < scope_texts().len() implies occurs_in(
            #[trigger] scope_texts()[i],
            location,
        ) by {
            assert(scopes@[i]@ == scope_texts()[i]);
        }
    }
    redirect_target(state, url)
}

} // verus!
