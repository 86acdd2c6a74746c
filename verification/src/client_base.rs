//! The authorized request pipeline: every resource call goes through the
//! same cycle — obtain a valid token from the access controller, build
//! the request, send it, classify the status, hand the body back. No
//! resource-specific path bypasses the controller or the classification.

use vstd::prelude::*;

verus! {

use crate::access_controller::AccessController;
use crate::context;
use crate::error;
use crate::error::Error;
use crate::request::{RequestSpec, Transport};

/// The transport, the API identity and the token cache, shared by all
/// resource clients of one API client.
pub struct ClientBase<T> {
    pub transport: T,
    pub api_context: context::ApiContext,
    pub access_controller: AccessController,
}

impl<T: Transport> ClientBase<T> {
    pub fn new(
        transport: T,
        api_context: context::ApiContext,
        access_controller: AccessController,
    ) -> (r: ClientBase<T>)
        ensures
            r.transport == transport,
            r.api_context == api_context,
            r.access_controller == access_controller,
    {
        ClientBase { transport, api_context, access_controller }
    }

    /// True when the token cache holds a context valid at `now`.
    pub open spec fn spec_has_valid_token(&self, now: i64) -> bool {
        self.access_controller.spec_has_valid(now)
    }

    /// A currently-valid bearer token, from the cache when it is fresh
    /// and from one token-endpoint request otherwise.
    pub fn get_access_token(&mut self, now: i64) -> (r: Result<context::AccessToken, Error>)
        ensures
            old(self).spec_has_valid_token(now) ==> {
                &&& final(self).access_controller == old(self).access_controller
                &&& final(self).transport == old(self).transport
                &&& (r matches Ok(t) && t@ == old(self).access_controller.spec_cached_token())
            },
            final(self).api_context == old(self).api_context,
            final(self).access_controller.profile == old(self).access_controller.profile,
            r is Err ==> final(self).access_controller.access_context == old(
                self,
            ).access_controller.access_context,
            r matches Ok(t) ==> (final(self).access_controller.access_context matches Some(ctx)
                && ctx.access_token.access_token@ == t@),
    {
        let base = self;
        base.access_controller.get_access_token(&base.api_context, &mut base.transport, now)
    }

    /// A currently-valid bearer token at the present moment, as read
    /// from the system clock. Whatever instant the clock reports, the
    /// cache ends up holding the returned token, and a failure leaves it
    /// as it was.
    pub fn get_access_token_now(&mut self) -> (r: Result<context::AccessToken, Error>)
        ensures
            final(self).api_context == old(self).api_context,
            final(self).access_controller.profile == old(self).access_controller.profile,
            r is Err ==> final(self).access_controller.access_context == old(
                self,
            ).access_controller.access_context,
            r matches Ok(t) ==> (final(self).access_controller.access_context matches Some(ctx)
                && ctx.access_token.access_token@ == t@),
    {
        let now = context::now_seconds();
        self.get_access_token(now)
    }

    /// Obtains a token and hands it to the request factory. A token
    /// failure propagates without building anything; a factory that
    /// declines to build is surfaced as an internal error. With a valid
    /// cached token and a factory whose every outcome is a request,
    /// success is owed.
    pub fn create_request<E, F: Fn(context::AccessToken, &E) -> Option<RequestSpec>>(
        &mut self,
        endpoint: &E,
        create_request: F,
        now: i64,
    ) -> (r: Result<RequestSpec, Error>)
        requires
            forall|t: context::AccessToken| #[trigger] create_request.requires((t, endpoint)),
        ensures
            final(self).api_context == old(self).api_context,
            final(self).access_controller.profile == old(self).access_controller.profile,
            old(self).spec_has_valid_token(now) ==> {
                &&& final(self).access_controller == old(self).access_controller
                &&& final(self).transport == old(self).transport
            },
            r matches Ok(req) ==> (exists|t: context::AccessToken|
                t@ == final(self).access_controller.spec_cached_token()
                    && #[trigger] create_request.ensures((t, endpoint), Some(req))),
            (old(self).spec_has_valid_token(now) && (forall|
                t: context::AccessToken,
                out: Option<RequestSpec>,
            |
                #[trigger] create_request.ensures((t, endpoint), out) ==> out is Some)) ==> r is Ok,
            (old(self).spec_has_valid_token(now) && (forall|
                t: context::AccessToken,
                out: Option<RequestSpec>,
            |
                #[trigger] create_request.ensures((t, endpoint), out) ==> out is None)) ==> r
                == Err::<RequestSpec, Error>(Error::InternalServerError),
    {
        let access_token = match self.get_access_token(now) {
            Ok(token) => token,
            Err(failure) => {
                return Err(failure);
            },
        };
        match create_request(access_token, endpoint) {
            Some(request) => Ok(request),
            None => Err(Error::InternalServerError),
        }
    }

    /// Classifies a response: an accepted status (200 or 201) hands the
    /// body through untouched; every other status is mapped by the error
    /// taxonomy, the body consulted only for rate limiting.
    pub fn handle_response(status: u16, body: Vec<u8>) -> (r: Result<Vec<u8>, Error>)
        ensures
            !error::spec_is_error_code(status) ==> r == Ok::<Vec<u8>, Error>(body),
            error::spec_is_error_code(status) ==> r == Err::<Vec<u8>, Error>(
                error::classify(status, error::retry_after_of(body@)),
            ),
    {
        if Error::is_error_code(status) {
            Err(Error::to_error(status, body.as_slice()))
        } else {
            Ok(body)
        }
    }

    /// Sends a built request and classifies the outcome: a transport
    /// failure is an internal error; otherwise the response is handled by
    /// the taxonomy. The token cache is never touched here.
    pub fn call_to_endpoint(&mut self, request: RequestSpec) -> (r: Result<Vec<u8>, Error>)
        ensures
            final(self).access_controller == old(self).access_controller,
            final(self).api_context == old(self).api_context,
    {
        match self.transport.send(&request) {
            Ok(response) => Self::handle_response(response.status, response.body),
            Err(_) => Err(Error::InternalServerError),
        }
    }
}

} // verus!
