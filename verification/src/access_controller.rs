//! The access controller: owns the cached access context, decides when a
//! refresh is due, and performs it. At most one non-expired context exists
//! at a time; a missing or expired one is indistinguishable from "no
//! token" and triggers a refresh. The context is replaced wholesale,
//! never mutated in place.

use vstd::prelude::*;

verus! {

use crate::context;
use crate::endpoint;
use crate::error::Error;
use crate::extractor;
use crate::request::{Transport, RequestSpec};

/// The token cache. Callers share one controller per client; exclusive
/// access is expressed by ownership, so a refresh is a `&mut` operation
/// and two refreshes cannot interleave.
pub struct AccessController {
    pub access_context: Option<context::AccessContext>,
    pub profile: endpoint::Profile,
}

impl AccessController {
    /// A fresh controller with an empty cache.
    pub fn new(profile: endpoint::Profile) -> (r: AccessController)
        ensures
            r.access_context is None,
            r.profile == profile,
    {
        AccessController { access_context: None, profile }
    }

    /// True when a context is cached and not expired at `now`.
    pub open spec fn spec_has_valid(&self, now: i64) -> bool {
        match self.access_context {
            Some(ctx) => !ctx.spec_expired(now),
            None => false,
        }
    }

    /// A refresh is due exactly when no valid context is cached.
    pub open spec fn spec_needs_refresh(&self, now: i64) -> bool {
        !self.spec_has_valid(now)
    }

    /// The cached token string (empty when nothing is cached).
    pub open spec fn spec_cached_token(&self) -> Seq<char> {
        match self.access_context {
            Some(ctx) => ctx.access_token.access_token@,
            None => Seq::empty(),
        }
    }

    /// Produces a currently-valid bearer token. A cached, non-expired
    /// token is returned as it is, with no state change and without
    /// touching the transport; otherwise one token-endpoint request is
    /// issued, its response classified, and on success the parsed token
    /// is stored as the sole current context before being returned.
    pub fn get_access_token<T: Transport>(
        &mut self,
        api_context: &context::ApiContext,
        transport: &mut T,
        now: i64,
    ) -> (r: Result<context::AccessToken, Error>)
        ensures
            old(self).spec_has_valid(now) ==> {
                &&& *final(self) == *old(self)
                &&& *final(transport) == *old(transport)
                &&& (r matches Ok(t) && t@ == old(self).spec_cached_token())
            },
            final(self).profile == old(self).profile,
            r is Err ==> final(self).access_context == old(self).access_context,
            r matches Ok(t) ==> (final(self).access_context matches Some(ctx)
                && ctx.access_token.access_token@ == t@),
            (r is Ok && !old(self).spec_has_valid(now)) ==> (final(self).access_context
                matches Some(ctx) && ctx.base == api_context.base
                && ctx.spec_expires_at() == ctx.access_token.expires_at),
    {
        let needs_refresh = match &self.access_context {
            Some(ctx) => ctx.expired(now),
            None => true,
        };
        if needs_refresh {
            let request: RequestSpec = match self.profile.get_access_token(api_context) {
                Some(req) => req,
                None => {
                    return Err(Error::InternalServerError);
                },
            };
            let response = match transport.send(&request) {
                Ok(resp) => resp,
                Err(_) => {
                    return Err(Error::InternalServerError);
                },
            };
            if Error::is_error_code(response.status) {
                return Err(Error::to_error(response.status, response.body.as_slice()));
            }
            let access_token = match extractor::extract_access_token(response.body.as_slice()) {
                Some(token) => token,
                None => {
                    return Err(Error::InternalServerError);
                },
            };
            self.access_context = Some(
                context::AccessContext::new(api_context.base.clone(), access_token),
            );
        }
        match &self.access_context {
            Some(ctx) => Ok(ctx.access_token.access_token.clone()),
            None => Err(Error::InternalServerError),
        }
    }
}

/// Law of the double check: once the cache holds a context that is valid
/// at `now`, a caller that re-examines it — the second half of
/// double-checked locking — finds no refresh due, so a stored token
/// suppresses every further token-endpoint request while it lasts.
pub proof fn lemma_valid_cache_suppresses_refresh(controller: AccessController, now: i64)
    requires
        controller.spec_has_valid(now),
    ensures
        !controller.spec_needs_refresh(now),
{
}

} // verus!
