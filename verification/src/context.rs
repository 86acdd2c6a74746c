//! Client contexts: the API's root URL, the long-lived secret that mints
//! access tokens, and the cached access context with its expiry policy.

use vstd::prelude::*;

verus! {

use crate::models;

/// How many seconds before its server-declared expiry a token is already
/// treated as expired: a buffer against clock skew and in-flight latency.
pub const TIME_EXPIRATION_TOLERANCE: i64 = 60;

/// The API's root URL. Created once at client construction and read-only
/// afterward.
pub struct BaseContext {
    pub base_url: String,
}

impl BaseContext {
    pub fn new(base_url: String) -> (r: BaseContext)
        ensures
            r.base_url == base_url,
    {
        BaseContext { base_url }
    }
}

impl Clone for BaseContext {
    fn clone(&self) -> (r: Self)
        ensures
            r == *self,
    {
        BaseContext { base_url: self.base_url.clone() }
    }
}

/// The root URL together with the API secret. The secret is used only to
/// mint access tokens, never in resource requests.
pub struct ApiContext {
    pub base: BaseContext,
    pub api_key: String,
}

impl ApiContext {
    pub fn new(base: BaseContext, api_key: String) -> (r: ApiContext)
        ensures
            r.base == base,
            r.api_key == api_key,
    {
        ApiContext { base, api_key }
    }
}

impl Clone for ApiContext {
    fn clone(&self) -> (r: Self)
        ensures
            r == *self,
    {
        ApiContext { base: self.base.clone(), api_key: self.api_key.clone() }
    }
}

/// A bearer token as resource requests carry it.
pub type AccessToken = String;

/// A cached token with its expiry instant. Replaced wholesale on refresh,
/// never mutated in place.
pub struct AccessContext {
    pub base: BaseContext,
    pub access_token: models::AccessToken,
    pub expires_at: i64,
}

impl AccessContext {
    /// The epoch second at which the server declares the token expired.
    pub open spec fn spec_expires_at(&self) -> i64 {
        self.expires_at
    }

    /// Expiry policy: the token counts as expired from
    /// `TIME_EXPIRATION_TOLERANCE` seconds before its declared expiry on.
    pub open spec fn spec_expired(&self, now: i64) -> bool {
        self.spec_expires_at() <= now + TIME_EXPIRATION_TOLERANCE
    }

    pub fn new(base: BaseContext, access_token: models::AccessToken) -> (r: AccessContext)
        ensures
            r.base == base,
            r.access_token == access_token,
            r.spec_expires_at() == access_token.expires_at,
    {
        let expires_at = access_token.expires_at;
        AccessContext { base, access_token, expires_at }
    }

    /// True when `now` is within the tolerance of, or past, the declared
    /// expiry.
    pub fn expired(&self, now: i64) -> (r: bool)
        ensures
            r == self.spec_expired(now),
    {
        (self.expires_at as i128) <= (now as i128) + (TIME_EXPIRATION_TOLERANCE as i128)
    }

    pub fn not_expired(&self, now: i64) -> (r: bool)
        ensures
            r == !self.spec_expired(now),
    {
        !self.expired(now)
    }
}

impl Clone for AccessContext {
    fn clone(&self) -> (r: Self)
        ensures
            r == *self,
    {
        AccessContext {
            base: self.base.clone(),
            access_token: self.access_token.clone(),
            expires_at: self.expires_at,
        }
    }
}

/// Boundary law of the expiry policy: a token declared to expire strictly
/// more than the tolerance after `now` is fresh; one declared to expire at
/// or before `now` plus the tolerance is already expired.
pub proof fn lemma_expiry_boundary(ctx: AccessContext, now: i64)
    ensures
        ctx.spec_expires_at() == now + TIME_EXPIRATION_TOLERANCE + 1 ==> !ctx.spec_expired(now),
        ctx.spec_expires_at() <= now + TIME_EXPIRATION_TOLERANCE ==> ctx.spec_expired(now),
{
}

/// Relies on chrono::Utc::now: the current time in whole seconds since the
/// epoch. Nothing is promised of the value; callers treat it as an input.
/// chrono itself aborts on a system clock outside its supported range
/// (before 1970 or some 260 millennia ahead).
#[verifier::external_body]
pub(crate) fn now_seconds() -> i64 {
    chrono::Utc::now().timestamp()
}

} // verus!
