//! The fixed protocol constants the service expects: header and cookie
//! names for attaching the token and credential, and the dedicated
//! endpoints of the auth machinery. Endpoint wrappers never override these.

use vstd::prelude::*;

verus! {

/// The characters of the header name under which the anti-forgery token is
/// attached.
pub open spec fn spec_xcsrf_header_name() -> Seq<char> {
    "x-csrf-token"@
}

/// The header name under which the anti-forgery token is attached.
pub fn xcsrf_header_name() -> (r: &'static str)
    ensures
        r@ == spec_xcsrf_header_name(),
{
    "x-csrf-token"
}

/// The characters of the cookie name under which the credential is attached.
pub open spec fn spec_credential_cookie_name() -> Seq<char> {
    ".ROBLOSECURITY"@
}

/// The cookie name under which the credential is attached.
pub fn credential_cookie_name() -> (r: &'static str)
    ensures
        r@ == spec_credential_cookie_name(),
{
    ".ROBLOSECURITY"
}

/// The characters of the user agent used for fussy endpoints.
pub open spec fn spec_user_agent() -> Seq<char> {
    "Mozilla/5.0 (Windows NT 10.0; Win64; x64; rv:101.0) Gecko/20100101 Firefox/101.0"@
}

/// The user agent used for fussy endpoints.
pub fn user_agent() -> (r: &'static str)
    ensures
        r@ == spec_user_agent(),
{
    "Mozilla/5.0 (Windows NT 10.0; Win64; x64; rv:101.0) Gecko/20100101 Firefox/101.0"
}

/// The characters of the content type used for fussy endpoints.
pub open spec fn spec_content_type() -> Seq<char> {
    "application/json;charset=utf-8"@
}

/// The content type used for fussy endpoints.
pub fn content_type() -> (r: &'static str)
    ensures
        r@ == spec_content_type(),
{
    "application/json;charset=utf-8"
}

/// The characters of the dedicated token-issuance endpoint, which by the
/// service's convention answers 403 with a fresh token embedded.
pub open spec fn spec_xcsrf_refresh_url() -> Seq<char> {
    "https://auth.roblox.com/v2/logout"@
}

/// The dedicated token-issuance endpoint.
pub fn xcsrf_refresh_url() -> (r: &'static str)
    ensures
        r@ == spec_xcsrf_refresh_url(),
{
    "https://auth.roblox.com/v2/logout"
}

/// The characters of the endpoint that resolves the authenticated
/// principal's identity.
pub open spec fn spec_authenticated_user_url() -> Seq<char> {
    "https://users.roblox.com/v1/users/authenticated"@
}

/// The endpoint that resolves the authenticated principal's identity.
pub fn authenticated_user_url() -> (r: &'static str)
    ensures
        r@ == spec_authenticated_user_url(),
{
    "https://users.roblox.com/v1/users/authenticated"
}

} // verus!
