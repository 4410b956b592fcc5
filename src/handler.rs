//! What a request handler does between its outside calls. A scrape goes: get a valid
//! token, list the accessories, build the registry, publish it. A restart goes: check the
//! bearer token, get a valid token, send the restart. Any failure ends the request with an
//! error reply, and nothing partial is served.

use vstd::prelude::*;
use crate::accessory::Accessory;
use crate::registry::{MetricsRegistry, build_registry, registry_of, gauge_points};

verus! {

/// Which kind of request is being handled.
#[derive(Clone, Copy)]
pub enum Request {
    Metrics,
    Restart,
}

/// The body of a reply.
pub enum ReplyBody {
    /// The action was carried out.
    Done,
    /// The request failed, for this reason.
    Error(String),
}

/// A reply with its HTTP status.
pub struct Reply {
    pub status: u16,
    pub body: ReplyBody,
}

/// What the handler does next.
pub enum Action {
    /// Get a valid token from the session.
    FetchToken,
    /// List the hub's accessories with this token.
    ListAccessories(String),
    /// Ask the hub to restart, with this token.
    SendRestart(String),
    /// Encode this registry and serve it with status 200.
    Publish(MetricsRegistry),
    /// End the request with this reply.
    Respond(Reply),
}

/// Whether `a` ends the request with `status` and the error `reason`.
pub open spec fn fails_with(a: Action, status: u16, reason: Seq<char>) -> bool {
    &&& a is Respond
    &&& a->Respond_0.status == status
    &&& a->Respond_0.body is Error
    &&& a->Respond_0.body->Error_0@ == reason
}

/// The message a restart request without an accepted bearer token gets.
pub open spec fn unauthorized_message() -> Seq<char> {
    "Unauthorized request, please provide a valid token."@
}

/// The first step of a restart request. The bearer check comes before anything else: a
/// request that fails it gets status 401 and causes no call to the hub.
pub fn restart_requested(authorized: bool) -> (a: Action)
    ensures
        authorized ==> a is FetchToken,
        !authorized ==> fails_with(a, 401, unauthorized_message()),
{
    if authorized {
        Action::FetchToken
    } else {
        let reason = String::from_str("Unauthorized request, please provide a valid token.");
        Action::Respond(Reply { status: 401, body: ReplyBody::Error(reason) })
    }
}

/// The step after the session answered with a token, or with the reason it has none.
pub fn token_ready(request: Request, token: Result<String, String>) -> (a: Action)
    ensures
        match token {
            Ok(t) => match request {
                Request::Metrics => a is ListAccessories && a->ListAccessories_0@ == t@,
                Request::Restart => a is SendRestart && a->SendRestart_0@ == t@,
            },
            Err(e) => fails_with(a, 500, e@),
        },
{
    match token {
        Ok(t) => match request {
            Request::Metrics => Action::ListAccessories(t),
            Request::Restart => Action::SendRestart(t),
        },
        Err(e) => Action::Respond(Reply { status: 500, body: ReplyBody::Error(e) }),
    }
}

/// The step after the hub answered the accessory listing: the registry built from the
/// accessories, or the failure's reason with status 500.
pub fn accessories_listed(listed: Result<Vec<Accessory>, String>) -> (a: Action)
    ensures
        match listed {
            Ok(accessories) => a is Publish && a->Publish_0@ == registry_of(
                gauge_points(accessories@),
            ),
            Err(e) => fails_with(a, 500, e@),
        },
{
    match listed {
        Ok(accessories) => Action::Publish(build_registry(&accessories)),
        Err(e) => Action::Respond(Reply { status: 500, body: ReplyBody::Error(e) }),
    }
}

/// The step after the restart request completed, or failed in transport.
pub fn restart_sent(sent: Result<bool, String>) -> (a: Action)
    ensures
        match sent {
            Ok(_) => a is Respond && a->Respond_0.status == 200 && a->Respond_0.body is Done,
            Err(e) => fails_with(a, 500, e@),
        },
{
    match sent {
        Ok(_) => Action::Respond(Reply { status: 200, body: ReplyBody::Done }),
        Err(e) => Action::Respond(Reply { status: 500, body: ReplyBody::Error(e) }),
    }
}

} // verus!
