//! The payment-system resource client: estimation and lookup by id. It
//! holds only its endpoint table; each call borrows the client's one
//! shared base, so every resource client of one client uses the same
//! token cache.

use vstd::prelude::*;

verus! {

use crate::client_base::ClientBase;
use crate::context;
use crate::endpoint;
use crate::error::Error;
use crate::json;
use crate::models;
use crate::request::{
    Method,
    RequestSpec,
    Transport,
    spec_bodyless_request,
    spec_json_request,
};
use crate::textfmt;
use crate::urlops::pushed_segment;

pub struct PaymentSystemClient {
    pub payment_system: endpoint::PaymentSystem,
}

impl PaymentSystemClient {
    pub fn new(payment_system: endpoint::PaymentSystem) -> (r: PaymentSystemClient)
        ensures
            r.payment_system == payment_system,
    {
        PaymentSystemClient { payment_system }
    }

    /// Estimates payment systems for an amount of a coin: a POST of the
    /// serialized body, answered with the raw JSON body of the
    /// estimations. A valid cached token is reused and left untouched.
    pub fn get_list_of_estimated_payment_systems<T: Transport>(
        &self,
        base: &mut ClientBase<T>,
        estimate: models::Estimate,
        now: i64,
    ) -> (r: Result<Vec<u8>, Error>)
        ensures
            final(base).api_context == old(base).api_context,
            final(base).access_controller.profile == old(base).access_controller.profile,
            old(base).spec_has_valid_token(now) ==> final(base).access_controller == old(
                base,
            ).access_controller,
    {
        let factory = move |
            access_token: context::AccessToken,
            payment_system: &endpoint::PaymentSystem,
        | -> (r: Option<RequestSpec>)
            ensures
                r is Some,
                r matches Some(req) ==> spec_json_request(
                    Method::Post,
                    access_token@,
                    payment_system.estimate@,
                    json::estimate_json(estimate.amount@, estimate.coin@),
                    req,
                ),
            {
                let estimate_again = models::Estimate {
                    amount: estimate.amount.clone(),
                    coin: estimate.coin.clone(),
                };
                payment_system.get_list_of_estimated_payment_systems(
                    estimate_again,
                    access_token.as_str(),
                )
            };
        let request = match base.create_request(&self.payment_system, factory, now) {
            Ok(req) => req,
            Err(failure) => {
                return Err(failure);
            },
        };
        base.call_to_endpoint(request)
    }

    /// Fetches one payment system, by its numeric id, as its raw JSON
    /// body. A valid cached token is reused and left untouched; with a
    /// valid token, a payment-system URL the id cannot extend is an
    /// internal error before any transport call.
    pub fn get_payment_system_by_id<T: Transport>(
        &self,
        base: &mut ClientBase<T>,
        id: models::PaymentSystemId,
        now: i64,
    ) -> (r: Result<Vec<u8>, Error>)
        ensures
            final(base).api_context == old(base).api_context,
            final(base).access_controller.profile == old(base).access_controller.profile,
            old(base).spec_has_valid_token(now) ==> final(base).access_controller == old(
                base,
            ).access_controller,
            (old(base).spec_has_valid_token(now) && pushed_segment(
                self.payment_system.payment_systems@,
                textfmt::dec_digits(id as nat),
            ) is None) ==> r == Err::<Vec<u8>, Error>(Error::InternalServerError),
    {
        let factory = move |
            access_token: context::AccessToken,
            payment_system: &endpoint::PaymentSystem,
        | -> (r: Option<RequestSpec>)
            ensures
                (r is Some) == (pushed_segment(
                    payment_system.payment_systems@,
                    textfmt::dec_digits(id as nat),
                ) is Some),
                r matches Some(req) ==> (pushed_segment(
                    payment_system.payment_systems@,
                    textfmt::dec_digits(id as nat),
                ) matches Some(u) && spec_bodyless_request(Method::Get, access_token@, u, req)),
            { payment_system.get_payment_system_by_id(id, access_token.as_str()) };
        let request = match base.create_request(&self.payment_system, factory, now) {
            Ok(req) => req,
            Err(failure) => {
                return Err(failure);
            },
        };
        base.call_to_endpoint(request)
    }
}

impl Clone for PaymentSystemClient {
    fn clone(&self) -> (r: Self)
        ensures
            r == *self,
    {
        PaymentSystemClient { payment_system: self.payment_system.clone() }
    }
}

} // verus!
