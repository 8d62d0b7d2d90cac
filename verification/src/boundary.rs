//! What the three routes answer: the replies that the authorization and the
//! analysis give to a browser, as status, redirect and text.

use vstd::prelude::*;
use crate::aggregation::{first_step, Aggregation, ApiError, ApiErrorView, RemoteCall};
use crate::auth::{
    authorization_outcome, begin_authorization, is_authorize_location, is_state_text, opt_token,
    AuthError, AuthErrorView, CallbackParams, ClientSettings, RedirectTarget, Session,
    SessionView, TokenInfo,
};
use crate::model::opt_text;

verus! {

/// How many saved tracks an analysis asks for.
pub const PAGE_LIMIT: u32 = 10;

/// At which saved track an analysis begins.
pub const PAGE_OFFSET: u32 = 0;

/// The status of a redirect.
pub const STATUS_FOUND: u16 = 302;

/// The status of a reply that carries its message as text.
pub const STATUS_OK: u16 = 200;

/// The status of a request without a stored token.
pub const STATUS_UNAUTHORIZED: u16 = 401;

/// The status of a request that a remote failure ended.
pub const STATUS_SERVER_ERROR: u16 = 500;

/// A reply to a browser.
#[derive(Debug, PartialEq, Eq)]
pub struct Reply {
    pub status: u16,
    /// Where a redirect leads.
    pub location: Option<String>,
    pub body: String,
}

pub struct ReplyView {
    pub status: u16,
    pub location: Option<Seq<char>>,
    pub body: Seq<char>,
}

impl View for Reply {
    type V = ReplyView;

    open spec fn view(&self) -> ReplyView {
        ReplyView { status: self.status, location: opt_text(self.location), body: self.body@ }
    }
}

/// The three routes that this library answers.
#[derive(Debug, PartialEq, Eq, Clone, Copy)]
pub enum Route {
    /// Starts an authorization.
    AuthorizeStart,
    /// Takes the provider's callback.
    AuthorizeCallback,
    /// Reports on the user's saved tracks.
    Analysis,
}

/// Why a request got no result.
#[derive(Debug, PartialEq, Eq)]
pub enum Failure {
    /// The callback gave no token.
    Auth(AuthError),
    /// The session could not be read or written while answering this route.
    Session(Route),
    /// The session holds no token.
    Unauthenticated,
    /// The aggregation ended without a report.
    Api(ApiError),
}

pub enum FailureView {
    Auth(AuthErrorView),
    Session(Route),
    Unauthenticated,
    Api(ApiErrorView),
}

impl View for Failure {
    type V = FailureView;

    open spec fn view(&self) -> FailureView {
        match self {
            Failure::Auth(error) => FailureView::Auth(error@),
            Failure::Session(route) => FailureView::Session(*route),
            Failure::Unauthenticated => FailureView::Unauthenticated,
            Failure::Api(error) => FailureView::Api(error@),
        }
    }
}

/// What a browser is told of a failure. A refused grant is not explained,
/// nor is a callback with another state than the issued one; a missing code
/// reads as a bad one; a remote failure is passed on in its own words.
pub open spec fn failure_text(failure: FailureView) -> Seq<char> {
    match failure {
        FailureView::Auth(AuthErrorView::ProviderDenied(_)) => "Failed to authorize."@,
        FailureView::Auth(AuthErrorView::StateMismatch) => "Failed to authorize."@,
        FailureView::Auth(AuthErrorView::MissingCode) => "Bad authorization code."@,
        FailureView::Auth(AuthErrorView::InvalidCode) => "Bad authorization code."@,
        FailureView::Session(_) => "Internal error."@,
        FailureView::Unauthenticated => "Not logged in."@,
        FailureView::Api(ApiErrorView::Remote(text)) => text,
        FailureView::Api(ApiErrorView::Unexpected) => "Unexpected answer from the provider."@,
    }
}

/// The status under which a failure is reported. What goes wrong in a
/// callback is told as text under the status of success, a session failure
/// there included; a session failure on another route is a server error.
pub open spec fn failure_status(failure: FailureView) -> u16 {
    match failure {
        FailureView::Auth(_) => STATUS_OK,
        FailureView::Session(Route::AuthorizeCallback) => STATUS_OK,
        FailureView::Session(_) => STATUS_SERVER_ERROR,
        FailureView::Unauthenticated => STATUS_UNAUTHORIZED,
        FailureView::Api(_) => STATUS_SERVER_ERROR,
    }
}

/// The reply that reports a failure.
pub open spec fn failure_reply_view(failure: FailureView) -> ReplyView {
    ReplyView { status: failure_status(failure), location: None, body: failure_text(failure) }
}

/// The reply that sends the browser to `location`.
pub open spec fn redirect_view(location: Seq<char>) -> ReplyView {
    ReplyView { status: STATUS_FOUND, location: Some(location), body: Seq::empty() }
}

/// Where a browser goes after a successful authorization.
pub open spec fn home() -> Seq<char> {
    "/"@
}

/// The reply that reports `failure`.
pub fn failure_reply(failure: &Failure) -> (reply: Reply)
    ensures
        reply@ == failure_reply_view(failure@),
{
    match failure {
        Failure::Auth(AuthError::ProviderDenied(_)) => Reply {
            status: STATUS_OK,
            location: None,
            body: "Failed to authorize.".to_owned(),
        },
        Failure::Auth(AuthError::StateMismatch) => Reply {
            status: STATUS_OK,
            location: None,
            body: "Failed to authorize.".to_owned(),
        },
        Failure::Auth(_) => Reply {
            status: STATUS_OK,
            location: None,
            body: "Bad authorization code.".to_owned(),
        },
        Failure::Session(Route::AuthorizeCallback) => Reply {
            status: STATUS_OK,
            location: None,
            body: "Internal error.".to_owned(),
        },
        Failure::Session(_) => Reply {
            status: STATUS_SERVER_ERROR,
            location: None,
            body: "Internal error.".to_owned(),
        },
        Failure::Unauthenticated => Reply {
            status: STATUS_UNAUTHORIZED,
            location: None,
            body: "Not logged in.".to_owned(),
        },
        Failure::Api(ApiError::Remote(text)) => Reply {
            status: STATUS_SERVER_ERROR,
            location: None,
            body: text.clone(),
        },
        Failure::Api(ApiError::Unexpected) => Reply {
            status: STATUS_SERVER_ERROR,
            location: None,
            body: "Unexpected answer from the provider.".to_owned(),
        },
    }
}

/// The reply that sends the browser to `location`.
pub fn redirect_reply(location: String) -> (reply: Reply)
    ensures
        reply@ == redirect_view(location@),
{
    Reply { status: STATUS_FOUND, location: Some(location), body: String::new() }
}

/// The reply that stands once the session was written back: `reply` itself
/// where the write succeeded, and the session failure of `route` where it did not.
pub fn stored_reply(reply: Reply, written: bool, route: Route) -> (r: Reply)
    ensures
        r@ == if written {
            reply@
        } else {
            failure_reply_view(FailureView::Session(route))
        },
{
    if written {
        reply
    } else {
        failure_reply(&Failure::Session(route))
    }
}

/// The reply to a request that starts an authorization, given the redirect
/// that was built for it. With a redirect, the session records its state and
/// the browser is sent to its location; without one, the session stays as it
/// was and the reply is that of a session failure on this route.
pub fn start_reply(session: &mut Session, target: Option<RedirectTarget>) -> (reply: Reply)
    ensures
        match target {
            Some(t) => {
                &&& reply@ == redirect_view(t@.location)
                &&& final(session)@ == (SessionView {
                    pending_state: Some(t@.state),
                    token: old(session)@.token,
                })
            },
            None => {
                &&& reply@ == failure_reply_view(FailureView::Session(Route::AuthorizeStart))
                &&& final(session)@ == old(session)@
            },
        },
{
    match target {
        Some(t) => {
            let RedirectTarget { state, location } = t;
            session.issue(state);
            redirect_reply(location)
        },
        None => failure_reply(&Failure::Session(Route::AuthorizeStart)),
    }
}

/// Answers a request that starts an authorization, always with a redirect.
/// The session records the state that was issued, in place of an earlier one,
/// and a stored token stays. The state is well formed, and the redirect leads
/// to an authorize URL that holds that state and each required scope. Which
/// state is issued is not decided here.
pub fn authorize_start(session: &mut Session, settings: &ClientSettings) -> (reply: Reply)
    ensures
        reply@.status == STATUS_FOUND,
        reply@.body == Seq::<char>::empty(),
        reply@.location.is_some(),
        final(session)@.token == old(session)@.token,
        final(session)@.pending_state.is_some(),
        is_state_text(final(session)@.pending_state.unwrap()),
        is_authorize_location(reply@.location.unwrap(), final(session)@.pending_state.unwrap()),
{
    let target = begin_authorization(settings);
    start_reply(session, target)
}

/// Answers the provider's callback, given what the exchange of its code
/// yielded. Where the callback comes to a token, the session stores it, the
/// issued state is spent and the browser is sent home; where it does not, the
/// session stays as it was and the reply says why. A callback whose state is
/// not the one issued to this session never comes to a token.
pub fn authorize_callback(
    session: &mut Session,
    params: &CallbackParams,
    exchanged: Option<TokenInfo>,
) -> (reply: Reply)
    ensures
        match authorization_outcome(old(session)@.pending_state, params@, opt_token(exchanged)) {
            Ok(token) => {
                &&& reply@ == redirect_view(home())
                &&& final(session)@ == (SessionView { pending_state: None, token: Some(token) })
            },
            Err(error) => {
                &&& reply@ == failure_reply_view(FailureView::Auth(error))
                &&& final(session)@ == old(session)@
            },
        },
{
    match session.finish_authorization(params, exchanged) {
        Ok(()) => redirect_reply("/".to_owned()),
        Err(error) => failure_reply(&Failure::Auth(error)),
    }
}

/// Opens an analysis on a session: with a stored token, a copy of the token,
/// a run for the fixed page and the run's first call; without one, the reply
/// for a request that is not logged in.
pub fn begin_analysis(session: &Session) -> (r: Result<(TokenInfo, Aggregation, RemoteCall), Reply>)
    ensures
        match session@.token {
            Some(token) => r.is_ok() && r.unwrap().0@ == token && (r.unwrap().1@, r.unwrap().2@)
                == first_step(PAGE_LIMIT, PAGE_OFFSET),
            None => r.is_err() && r.unwrap_err()@ == failure_reply_view(FailureView::Unauthenticated),
        },
{
    match session.stored_token() {
        Some(token) => {
            let (run, call) = Aggregation::start(PAGE_LIMIT, PAGE_OFFSET);
            Ok((token, run, call))
        },
        None => Err(failure_reply(&Failure::Unauthenticated)),
    }
}

} // verus!
