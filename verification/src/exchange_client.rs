//! The exchange resource client: the order book, the caller's own
//! orders, and trades. It holds only its endpoint table; each call
//! borrows the client's one shared base, so every resource client of one
//! client uses the same token cache.

use vstd::prelude::*;

verus! {

use crate::client_base::ClientBase;
use crate::coin;
use crate::context;
use crate::endpoint;
use crate::error::Error;
use crate::json;
use crate::models;
use crate::request::{
    Method,
    RequestSpec,
    Transport,
    spec_bodyless_request,
    spec_json_request,
};
use crate::urlops::pushed_segment;

pub struct ExchangeClient {
    pub exchange: endpoint::Exchange,
}

impl ExchangeClient {
    pub fn new(exchange: endpoint::Exchange) -> (r: ExchangeClient)
        ensures
            r.exchange == exchange,
    {
        ExchangeClient { exchange }
    }

    /// Lists the order book of a pair as its raw JSON body; offset
    /// defaults to 0, limit to 50. A valid cached token is reused and
    /// left untouched; with a valid token, an order-book URL the filters
    /// cannot extend is an internal error before any transport call.
    pub fn get_all_orders<T: Transport>(
        &self,
        base: &mut ClientBase<T>,
        pair: coin::CoinPair,
        offset: Option<u32>,
        limit: Option<u32>,
        now: i64,
    ) -> (r: Result<Vec<u8>, Error>)
        ensures
            final(base).api_context == old(base).api_context,
            final(base).access_controller.profile == old(base).access_controller.profile,
            old(base).spec_has_valid_token(now) ==> final(base).access_controller == old(
                base,
            ).access_controller,
            (old(base).spec_has_valid_token(now) && self.exchange.spec_orders_url(
                pair.spec_code(),
                offset,
                limit,
            ) is None) ==> r == Err::<Vec<u8>, Error>(Error::InternalServerError),
    {
        let factory = move |access_token: context::AccessToken, exchange: &endpoint::Exchange| ->
            (r: Option<RequestSpec>)
            ensures
                (r is Some) == (exchange.spec_orders_url(pair.spec_code(), offset, limit)
                    is Some),
                r matches Some(req) ==> (exchange.spec_orders_url(pair.spec_code(), offset, limit)
                    matches Some(u) && spec_bodyless_request(Method::Get, access_token@, u, req)),
            { exchange.get_orders(pair.clone(), offset, limit, access_token.as_str()) };
        let request = match base.create_request(&self.exchange, factory, now) {
            Ok(req) => req,
            Err(failure) => {
                return Err(failure);
            },
        };
        base.call_to_endpoint(request)
    }

    /// Creates an order from already-rendered decimal strings: a POST of
    /// the serialized body, answered with the created order's raw JSON
    /// body. A valid cached token is reused and left untouched.
    pub fn create_order_raw<T: Transport>(
        &self,
        base: &mut ClientBase<T>,
        pair: coin::CoinPair,
        amount: &str,
        rate: &str,
        now: i64,
    ) -> (r: Result<Vec<u8>, Error>)
        ensures
            final(base).api_context == old(base).api_context,
            final(base).access_controller.profile == old(base).access_controller.profile,
            old(base).spec_has_valid_token(now) ==> final(base).access_controller == old(
                base,
            ).access_controller,
    {
        let amount_owned = amount.to_owned();
        let rate_owned = rate.to_owned();
        let factory = move |access_token: context::AccessToken, exchange: &endpoint::Exchange| ->
            (r: Option<RequestSpec>)
            ensures
                r is Some,
                r matches Some(req) ==> spec_json_request(
                    Method::Post,
                    access_token@,
                    exchange.orders@,
                    json::order_request_json(amount_owned@, pair.spec_code(), rate_owned@),
                    req,
                ),
            {
                exchange.post_order(
                    pair.clone(),
                    amount_owned.clone(),
                    rate_owned.clone(),
                    access_token.as_str(),
                )
            };
        let request = match base.create_request(&self.exchange, factory, now) {
            Ok(req) => req,
            Err(failure) => {
                return Err(failure);
            },
        };
        base.call_to_endpoint(request)
    }

    /// Lists the caller's own orders under the optional pair and status
    /// filters. A valid cached token is reused and left untouched; with
    /// a valid token, a URL the filters cannot extend is an internal
    /// error before any transport call.
    pub fn get_my_orders<T: Transport>(
        &self,
        base: &mut ClientBase<T>,
        pair: Option<coin::CoinPair>,
        status: Option<String>,
        offset: Option<u32>,
        limit: Option<u32>,
        now: i64,
    ) -> (r: Result<Vec<u8>, Error>)
        ensures
            final(base).api_context == old(base).api_context,
            final(base).access_controller.profile == old(base).access_controller.profile,
            old(base).spec_has_valid_token(now) ==> final(base).access_controller == old(
                base,
            ).access_controller,
            (old(base).spec_has_valid_token(now) && self.exchange.spec_my_orders_url(
                endpoint::Exchange::spec_opt_pair_code(pair),
                endpoint::Exchange::spec_opt_view(status),
                offset,
                limit,
            ) is None) ==> r == Err::<Vec<u8>, Error>(Error::InternalServerError),
    {
        let pair_code: Ghost<Option<Seq<char>>> = Ghost(
            endpoint::Exchange::spec_opt_pair_code(pair),
        );
        let status_view: Ghost<Option<Seq<char>>> = Ghost(
            endpoint::Exchange::spec_opt_view(status),
        );
        let factory = move |access_token: context::AccessToken, exchange: &endpoint::Exchange| ->
            (r: Option<RequestSpec>)
            ensures
                (r is Some) == (exchange.spec_my_orders_url(pair_code@, status_view@, offset, limit)
                    is Some),
                r matches Some(req) ==> (exchange.spec_my_orders_url(
                    pair_code@,
                    status_view@,
                    offset,
                    limit,
                ) matches Some(u) && spec_bodyless_request(Method::Get, access_token@, u, req)),
            {
                exchange.get_my_orders(
                    clone_opt_pair(&pair),
                    clone_opt_string(&status),
                    offset,
                    limit,
                    access_token.as_str(),
                )
            };
        let request = match base.create_request(&self.exchange, factory, now) {
            Ok(req) => req,
            Err(failure) => {
                return Err(failure);
            },
        };
        base.call_to_endpoint(request)
    }

    /// Lists trades, optionally those of one order. A valid cached token
    /// is reused and left untouched; with a valid token, a URL the
    /// filters cannot extend is an internal error before any transport
    /// call.
    pub fn get_trades<T: Transport>(
        &self,
        base: &mut ClientBase<T>,
        order_id: Option<u32>,
        offset: Option<u32>,
        limit: Option<u32>,
        now: i64,
    ) -> (r: Result<Vec<u8>, Error>)
        ensures
            final(base).api_context == old(base).api_context,
            final(base).access_controller.profile == old(base).access_controller.profile,
            old(base).spec_has_valid_token(now) ==> final(base).access_controller == old(
                base,
            ).access_controller,
            (old(base).spec_has_valid_token(now) && self.exchange.spec_trades_url(
                order_id,
                offset,
                limit,
            ) is None) ==> r == Err::<Vec<u8>, Error>(Error::InternalServerError),
    {
        let factory = move |access_token: context::AccessToken, exchange: &endpoint::Exchange| ->
            (r: Option<RequestSpec>)
            ensures
                (r is Some) == (exchange.spec_trades_url(order_id, offset, limit) is Some),
                r matches Some(req) ==> (exchange.spec_trades_url(order_id, offset, limit)
                    matches Some(u) && spec_bodyless_request(Method::Get, access_token@, u, req)),
            { exchange.get_trades(order_id, offset, limit, access_token.as_str()) };
        let request = match base.create_request(&self.exchange, factory, now) {
            Ok(req) => req,
            Err(failure) => {
                return Err(failure);
            },
        };
        base.call_to_endpoint(request)
    }

    /// Fetches one trade, by id. A valid cached token is reused and left
    /// untouched; with a valid token, a trade URL the id cannot extend
    /// is an internal error before any transport call.
    pub fn get_trade_by_id<T: Transport>(
        &self,
        base: &mut ClientBase<T>,
        id: &str,
        now: i64,
    ) -> (r: Result<Vec<u8>, Error>)
        ensures
            final(base).api_context == old(base).api_context,
            final(base).access_controller.profile == old(base).access_controller.profile,
            old(base).spec_has_valid_token(now) ==> final(base).access_controller == old(
                base,
            ).access_controller,
            (old(base).spec_has_valid_token(now) && pushed_segment(self.exchange.trades@, id@)
                is None) ==> r == Err::<Vec<u8>, Error>(Error::InternalServerError),
    {
        let id_owned = id.to_owned();
        let factory = move |access_token: context::AccessToken, exchange: &endpoint::Exchange| ->
            (r: Option<RequestSpec>)
            ensures
                (r is Some) == (pushed_segment(exchange.trades@, id_owned@) is Some),
                r matches Some(req) ==> (pushed_segment(exchange.trades@, id_owned@) matches Some(
                    u,
                ) && spec_bodyless_request(Method::Get, access_token@, u, req)),
            { exchange.get_trade_by_id(id_owned.as_str(), access_token.as_str()) };
        let request = match base.create_request(&self.exchange, factory, now) {
            Ok(req) => req,
            Err(failure) => {
                return Err(failure);
            },
        };
        base.call_to_endpoint(request)
    }

    /// Fetches one order, by id. A valid cached token is reused and left
    /// untouched; with a valid token, an order URL the id cannot extend
    /// is an internal error before any transport call.
    pub fn get_order_by_id<T: Transport>(
        &self,
        base: &mut ClientBase<T>,
        id: &str,
        now: i64,
    ) -> (r: Result<Vec<u8>, Error>)
        ensures
            final(base).api_context == old(base).api_context,
            final(base).access_controller.profile == old(base).access_controller.profile,
            old(base).spec_has_valid_token(now) ==> final(base).access_controller == old(
                base,
            ).access_controller,
            (old(base).spec_has_valid_token(now) && pushed_segment(self.exchange.orders@, id@)
                is None) ==> r == Err::<Vec<u8>, Error>(Error::InternalServerError),
    {
        let id_owned = id.to_owned();
        let factory = move |access_token: context::AccessToken, exchange: &endpoint::Exchange| ->
            (r: Option<RequestSpec>)
            ensures
                (r is Some) == (pushed_segment(exchange.orders@, id_owned@) is Some),
                r matches Some(req) ==> (pushed_segment(exchange.orders@, id_owned@) matches Some(
                    u,
                ) && spec_bodyless_request(Method::Get, access_token@, u, req)),
            { exchange.get_order_by_id(id_owned.as_str(), access_token.as_str()) };
        let request = match base.create_request(&self.exchange, factory, now) {
            Ok(req) => req,
            Err(failure) => {
                return Err(failure);
            },
        };
        base.call_to_endpoint(request)
    }

    /// Updates one order: a PUT of the serialized `amount`, `rate` body.
    /// A valid cached token is reused and left untouched; with a valid
    /// token, an order URL the id cannot extend is an internal error
    /// before any transport call.
    pub fn update_order_by_id<T: Transport>(
        &self,
        base: &mut ClientBase<T>,
        id: &str,
        order: &models::UpdateOrder,
        now: i64,
    ) -> (r: Result<Vec<u8>, Error>)
        ensures
            final(base).api_context == old(base).api_context,
            final(base).access_controller.profile == old(base).access_controller.profile,
            old(base).spec_has_valid_token(now) ==> final(base).access_controller == old(
                base,
            ).access_controller,
            (old(base).spec_has_valid_token(now) && pushed_segment(self.exchange.orders@, id@)
                is None) ==> r == Err::<Vec<u8>, Error>(Error::InternalServerError),
    {
        let id_owned = id.to_owned();
        let order_owned = models::UpdateOrder {
            amount: order.amount.clone(),
            rate: order.rate.clone(),
        };
        let factory = move |access_token: context::AccessToken, exchange: &endpoint::Exchange| ->
            (r: Option<RequestSpec>)
            ensures
                (r is Some) == (pushed_segment(exchange.orders@, id_owned@) is Some),
                r matches Some(req) ==> (pushed_segment(exchange.orders@, id_owned@) matches Some(
                    u,
                ) && spec_json_request(
                    Method::Put,
                    access_token@,
                    u,
                    json::update_order_json(order_owned.amount@, order_owned.rate@),
                    req,
                )),
            {
                let order_again = models::UpdateOrder {
                    amount: order_owned.amount.clone(),
                    rate: order_owned.rate.clone(),
                };
                exchange.update_order_by_id(id_owned.as_str(), order_again, access_token.as_str())
            };
        let request = match base.create_request(&self.exchange, factory, now) {
            Ok(req) => req,
            Err(failure) => {
                return Err(failure);
            },
        };
        base.call_to_endpoint(request)
    }

    /// Deletes one order. A valid cached token is reused and left
    /// untouched; with a valid token, an order URL the id cannot extend
    /// is an internal error before any transport call.
    pub fn delete_order_by_id<T: Transport>(
        &self,
        base: &mut ClientBase<T>,
        id: &str,
        now: i64,
    ) -> (r: Result<Vec<u8>, Error>)
        ensures
            final(base).api_context == old(base).api_context,
            final(base).access_controller.profile == old(base).access_controller.profile,
            old(base).spec_has_valid_token(now) ==> final(base).access_controller == old(
                base,
            ).access_controller,
            (old(base).spec_has_valid_token(now) && pushed_segment(self.exchange.orders@, id@)
                is None) ==> r == Err::<Vec<u8>, Error>(Error::InternalServerError),
    {
        let id_owned = id.to_owned();
        let factory = move |access_token: context::AccessToken, exchange: &endpoint::Exchange| ->
            (r: Option<RequestSpec>)
            ensures
                (r is Some) == (pushed_segment(exchange.orders@, id_owned@) is Some),
                r matches Some(req) ==> (pushed_segment(exchange.orders@, id_owned@) matches Some(
                    u,
                ) && spec_bodyless_request(Method::Delete, access_token@, u, req)),
            { exchange.delete_order_by_id(id_owned.as_str(), access_token.as_str()) };
        let request = match base.create_request(&self.exchange, factory, now) {
            Ok(req) => req,
            Err(failure) => {
                return Err(failure);
            },
        };
        base.call_to_endpoint(request)
    }

    /// Activates one order: a bodyless POST on `{order}/activate`. A
    /// valid cached token is reused and left untouched; with a valid
    /// token, an order URL the id cannot extend is an internal error
    /// before any transport call.
    pub fn activate_order_by_id<T: Transport>(
        &self,
        base: &mut ClientBase<T>,
        id: &str,
        now: i64,
    ) -> (r: Result<Vec<u8>, Error>)
        ensures
            final(base).api_context == old(base).api_context,
            final(base).access_controller.profile == old(base).access_controller.profile,
            old(base).spec_has_valid_token(now) ==> final(base).access_controller == old(
                base,
            ).access_controller,
            (old(base).spec_has_valid_token(now) && endpoint::pushed_segment2(
                self.exchange.orders@,
                id@,
                "activate"@,
            ) is None) ==> r == Err::<Vec<u8>, Error>(Error::InternalServerError),
    {
        let id_owned = id.to_owned();
        let factory = move |access_token: context::AccessToken, exchange: &endpoint::Exchange| ->
            (r: Option<RequestSpec>)
            ensures
                (r is Some) == (endpoint::pushed_segment2(exchange.orders@, id_owned@, "activate"@)
                    is Some),
                r matches Some(req) ==> (endpoint::pushed_segment2(
                    exchange.orders@,
                    id_owned@,
                    "activate"@,
                ) matches Some(u) && spec_bodyless_request(Method::Post, access_token@, u, req)),
            { exchange.activate_order_by_id(id_owned.as_str(), access_token.as_str()) };
        let request = match base.create_request(&self.exchange, factory, now) {
            Ok(req) => req,
            Err(failure) => {
                return Err(failure);
            },
        };
        base.call_to_endpoint(request)
    }

    /// Deactivates one order: a bodyless POST on `{order}/deactivate`. A
    /// valid cached token is reused and left untouched; with a valid
    /// token, an order URL the id cannot extend is an internal error
    /// before any transport call.
    pub fn deactivate_order_by_id<T: Transport>(
        &self,
        base: &mut ClientBase<T>,
        id: &str,
        now: i64,
    ) -> (r: Result<Vec<u8>, Error>)
        ensures
            final(base).api_context == old(base).api_context,
            final(base).access_controller.profile == old(base).access_controller.profile,
            old(base).spec_has_valid_token(now) ==> final(base).access_controller == old(
                base,
            ).access_controller,
            (old(base).spec_has_valid_token(now) && endpoint::pushed_segment2(
                self.exchange.orders@,
                id@,
                "deactivate"@,
            ) is None) ==> r == Err::<Vec<u8>, Error>(Error::InternalServerError),
    {
        let id_owned = id.to_owned();
        let factory = move |access_token: context::AccessToken, exchange: &endpoint::Exchange| ->
            (r: Option<RequestSpec>)
            ensures
                (r is Some) == (endpoint::pushed_segment2(
                    exchange.orders@,
                    id_owned@,
                    "deactivate"@,
                ) is Some),
                r matches Some(req) ==> (endpoint::pushed_segment2(
                    exchange.orders@,
                    id_owned@,
                    "deactivate"@,
                ) matches Some(u) && spec_bodyless_request(Method::Post, access_token@, u, req)),
            { exchange.deactivate_order_by_id(id_owned.as_str(), access_token.as_str()) };
        let request = match base.create_request(&self.exchange, factory, now) {
            Ok(req) => req,
            Err(failure) => {
                return Err(failure);
            },
        };
        base.call_to_endpoint(request)
    }

    /// Creates a trade on one order: a POST of the serialized `amount`,
    /// `rate` body to `{order}/trades`. A valid cached token is reused
    /// and left untouched; with a valid token, an order URL the id
    /// cannot extend is an internal error before any transport call.
    pub fn create_trade_for_order<T: Transport>(
        &self,
        base: &mut ClientBase<T>,
        id: &str,
        trade: &models::CreateTradeRequest,
        now: i64,
    ) -> (r: Result<Vec<u8>, Error>)
        ensures
            final(base).api_context == old(base).api_context,
            final(base).access_controller.profile == old(base).access_controller.profile,
            old(base).spec_has_valid_token(now) ==> final(base).access_controller == old(
                base,
            ).access_controller,
            (old(base).spec_has_valid_token(now) && endpoint::pushed_segment2(
                self.exchange.orders@,
                id@,
                "trades"@,
            ) is None) ==> r == Err::<Vec<u8>, Error>(Error::InternalServerError),
    {
        let id_owned = id.to_owned();
        let trade_owned = models::CreateTradeRequest {
            amount: trade.amount.clone(),
            rate: trade.rate.clone(),
        };
        let factory = move |access_token: context::AccessToken, exchange: &endpoint::Exchange| ->
            (r: Option<RequestSpec>)
            ensures
                (r is Some) == (endpoint::pushed_segment2(exchange.orders@, id_owned@, "trades"@)
                    is Some),
                r matches Some(req) ==> (endpoint::pushed_segment2(
                    exchange.orders@,
                    id_owned@,
                    "trades"@,
                ) matches Some(u) && spec_json_request(
                    Method::Post,
                    access_token@,
                    u,
                    json::update_order_json(trade_owned.amount@, trade_owned.rate@),
                    req,
                )),
            {
                exchange.create_trade_for_order(
                    id_owned.as_str(),
                    &trade_owned,
                    access_token.as_str(),
                )
            };
        let request = match base.create_request(&self.exchange, factory, now) {
            Ok(req) => req,
            Err(failure) => {
                return Err(failure);
            },
        };
        base.call_to_endpoint(request)
    }
}

impl Clone for ExchangeClient {
    fn clone(&self) -> (r: Self)
        ensures
            r == *self,
    {
        ExchangeClient { exchange: self.exchange.clone() }
    }
}

/// Clones an optional pair, keeping its value.
fn clone_opt_pair(pair: &Option<coin::CoinPair>) -> (r: Option<coin::CoinPair>)
    ensures
        r == *pair,
{
    match pair {
        Some(p) => Some(p.clone()),
        None => None,
    }
}

/// Clones an optional string, keeping its value.
fn clone_opt_string(s: &Option<String>) -> (r: Option<String>)
    ensures
        r == *s,
{
    match s {
        Some(v) => Some(v.clone()),
        None => None,
    }
}

} // verus!
