//! The coin resource client: the list of available coins and single-coin
//! lookup. It holds only its endpoint table; each call borrows the
//! client's one shared base, so every resource client of one client uses
//! the same token cache.

use vstd::prelude::*;

verus! {

use crate::client_base::ClientBase;
use crate::coin;
use crate::context;
use crate::endpoint;
use crate::error::Error;
use crate::request::{Method, RequestSpec, Transport, spec_bodyless_request};
use crate::urlops::pushed_segment;

pub struct CoinClient {
    pub coin: endpoint::Coin,
}

impl CoinClient {
    pub fn new(coin: endpoint::Coin) -> (r: CoinClient)
        ensures
            r.coin == coin,
    {
        CoinClient { coin }
    }

    /// Fetches the list of available coins as its raw JSON body. A valid
    /// cached token is reused and left untouched.
    pub fn get_available_coins<T: Transport>(&self, base: &mut ClientBase<T>, now: i64) -> (r:
        Result<Vec<u8>, Error>)
        ensures
            final(base).api_context == old(base).api_context,
            final(base).access_controller.profile == old(base).access_controller.profile,
            old(base).spec_has_valid_token(now) ==> final(base).access_controller == old(
                base,
            ).access_controller,
    {
        let factory = |access_token: context::AccessToken, coin_endpoint: &endpoint::Coin| -> (r:
            Option<RequestSpec>)
            ensures
                r is Some,
                r matches Some(req) ==> spec_bodyless_request(
                    Method::Get,
                    access_token@,
                    coin_endpoint.coins@,
                    req,
                ),
            { coin_endpoint.coins(access_token.as_str()) };
        let request = match base.create_request(&self.coin, factory, now) {
            Ok(req) => req,
            Err(failure) => {
                return Err(failure);
            },
        };
        base.call_to_endpoint(request)
    }

    /// Fetches one coin, by its wire name, as its raw JSON body. A valid
    /// cached token is reused and left untouched; with a valid token, a
    /// coin URL the name cannot extend is an internal error before any
    /// transport call.
    pub fn get_coin<T: Transport>(
        &self,
        base: &mut ClientBase<T>,
        coin: coin::Coin,
        now: i64,
    ) -> (r: Result<Vec<u8>, Error>)
        ensures
            final(base).api_context == old(base).api_context,
            final(base).access_controller.profile == old(base).access_controller.profile,
            old(base).spec_has_valid_token(now) ==> final(base).access_controller == old(
                base,
            ).access_controller,
            (old(base).spec_has_valid_token(now) && pushed_segment(
                self.coin.coins@,
                coin.spec_name(),
            ) is None) ==> r == Err::<Vec<u8>, Error>(Error::InternalServerError),
    {
        let factory = move |access_token: context::AccessToken, coin_endpoint: &endpoint::Coin| ->
            (r: Option<RequestSpec>)
            ensures
                (r is Some) == (pushed_segment(coin_endpoint.coins@, coin.spec_name()) is Some),
                r matches Some(req) ==> (pushed_segment(coin_endpoint.coins@, coin.spec_name())
                    matches Some(u) && spec_bodyless_request(Method::Get, access_token@, u, req)),
            { coin_endpoint.coin(coin.clone(), access_token.as_str()) };
        let request = match base.create_request(&self.coin, factory, now) {
            Ok(req) => req,
            Err(failure) => {
                return Err(failure);
            },
        };
        base.call_to_endpoint(request)
    }
}

impl Clone for CoinClient {
    fn clone(&self) -> (r: Self)
        ensures
            r == *self,
    {
        CoinClient { coin: self.coin.clone() }
    }
}

} // verus!
