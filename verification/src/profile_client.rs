//! The profile resource client: token issuance, account information and
//! balances. Like every resource client it holds only its endpoint
//! table; each call borrows the client's one shared base, so all
//! resource clients of one client use the same token cache. Successful
//! responses are handed back as their raw JSON bodies for the caller to
//! decode.

use vstd::prelude::*;

verus! {

use crate::client_base::ClientBase;
use crate::context;
use crate::endpoint;
use crate::error::Error;
use crate::extractor;
use crate::models;
use crate::request::{Method, RequestSpec, Transport, spec_bodyless_request};

pub struct ProfileClient {
    pub profile: endpoint::Profile,
}

impl ProfileClient {
    pub fn new(profile: endpoint::Profile) -> (r: ProfileClient)
        ensures
            r.profile == profile,
    {
        ProfileClient { profile }
    }

    /// Mints a fresh access token directly, without consulting or
    /// touching the cache: one POST to the token endpoint, classified by
    /// the taxonomy, its body parsed into the typed token.
    pub fn create_access_token<T: Transport>(&self, base: &mut ClientBase<T>) -> (r: Result<
        models::AccessToken,
        Error,
    >)
        ensures
            final(base).access_controller == old(base).access_controller,
            final(base).api_context == old(base).api_context,
    {
        let request: RequestSpec = match self.profile.get_access_token(&base.api_context) {
            Some(req) => req,
            None => {
                return Err(Error::InternalServerError);
            },
        };
        let response = match base.transport.send(&request) {
            Ok(resp) => resp,
            Err(_) => {
                return Err(Error::InternalServerError);
            },
        };
        if Error::is_error_code(response.status) {
            return Err(Error::to_error(response.status, response.body.as_slice()));
        }
        match extractor::extract_access_token(response.body.as_slice()) {
            Some(token) => Ok(token),
            None => Err(Error::InternalServerError),
        }
    }

    /// Fetches `/me`: the raw JSON body of the account information. A
    /// valid cached token is reused and left untouched.
    pub fn get_account_information<T: Transport>(
        &self,
        base: &mut ClientBase<T>,
        now: i64,
    ) -> (r: Result<Vec<u8>, Error>)
        ensures
            final(base).api_context == old(base).api_context,
            final(base).access_controller.profile == old(base).access_controller.profile,
            old(base).spec_has_valid_token(now) ==> final(base).access_controller == old(
                base,
            ).access_controller,
    {
        let factory = |access_token: context::AccessToken, profile: &endpoint::Profile| -> (r:
            Option<RequestSpec>)
            ensures
                r is Some,
                r matches Some(req) ==> spec_bodyless_request(
                    Method::Get,
                    access_token@,
                    profile.me@,
                    req,
                ),
            { profile.get_me(access_token.as_str()) };
        let request = match base.create_request(&self.profile, factory, now) {
            Ok(req) => req,
            Err(failure) => {
                return Err(failure);
            },
        };
        base.call_to_endpoint(request)
    }

    /// Fetches `/me/balance`: the raw JSON body of the balance summary.
    /// A valid cached token is reused and left untouched.
    pub fn get_balance_summary<T: Transport>(&self, base: &mut ClientBase<T>, now: i64) -> (r:
        Result<Vec<u8>, Error>)
        ensures
            final(base).api_context == old(base).api_context,
            final(base).access_controller.profile == old(base).access_controller.profile,
            old(base).spec_has_valid_token(now) ==> final(base).access_controller == old(
                base,
            ).access_controller,
    {
        let factory = |access_token: context::AccessToken, profile: &endpoint::Profile| -> (r:
            Option<RequestSpec>)
            ensures
                r is Some,
                r matches Some(req) ==> spec_bodyless_request(
                    Method::Get,
                    access_token@,
                    profile.balance@,
                    req,
                ),
            { profile.get_balance(access_token.as_str()) };
        let request = match base.create_request(&self.profile, factory, now) {
            Ok(req) => req,
            Err(failure) => {
                return Err(failure);
            },
        };
        base.call_to_endpoint(request)
    }
}

impl Clone for ProfileClient {
    fn clone(&self) -> (r: Self)
        ensures
            r == *self,
    {
        ProfileClient { profile: self.profile.clone() }
    }
}

} // verus!
