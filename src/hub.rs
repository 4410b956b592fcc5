//! The requests the library makes of the hub's REST API: where they go and how they
//! authenticate, and which answers count as success.

use vstd::prelude::*;
use vstd::string::*;

verus! {

/// `base` followed by `suffix`.
fn joined(base: &str, suffix: &str) -> (r: String)
    ensures
        r@ == base@ + suffix@,
{
    let mut r = String::from_str(base);
    r.append(suffix);
    r
}

/// Where the login request goes.
pub fn login_url(uri: &str) -> (r: String)
    ensures
        r@ == uri@ + "/api/auth/login"@,
{
    joined(uri, "/api/auth/login")
}

/// Where the accessory listing is fetched from.
pub fn accessories_url(uri: &str) -> (r: String)
    ensures
        r@ == uri@ + "/api/accessories"@,
{
    joined(uri, "/api/accessories")
}

/// Where the restart request goes.
pub fn restart_url(uri: &str) -> (r: String)
    ensures
        r@ == uri@ + "/api/server/restart"@,
{
    joined(uri, "/api/server/restart")
}

/// The `Authorization` value that presents `token`.
pub fn bearer_header(token: &str) -> (r: String)
    ensures
        r@ == "Bearer "@ + token@,
{
    joined("Bearer ", token)
}

/// Whether an HTTP status code reports success: the 2xx range.
pub fn is_success_status(code: u16) -> (r: bool)
    ensures
        r == (200 <= code && code <= 299),
{
    200 <= code && code <= 299
}

} // verus!
