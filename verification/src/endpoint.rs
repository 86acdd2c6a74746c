//! The per-resource endpoint builders: each one holds the URLs of its
//! API area, derived from the root URL at construction, and produces
//! fully built requests. Every contract pins the request down to its
//! method, URL, headers and body.

use vstd::prelude::*;

verus! {

use crate::coin;
use crate::context;
use crate::json;
use crate::models;
use crate::request::{
    create_get_request_with_url,
    create_post_request_with_url,
    create_json_request_with_url,
    spec_bodyless_request,
    spec_json_request,
    Method,
    RequestSpec,
};
use crate::textfmt;
use crate::urlops::{
    add_offset_and_limit_parameters,
    appended_pair,
    pushed_segment,
    spec_with_offset_and_limit,
    with_path_segment,
    with_query_pair,
};

/// Two path segments appended in order.
pub open spec fn pushed_segment2(url: Seq<char>, s1: Seq<char>, s2: Seq<char>) -> Option<
    Seq<char>,
> {
    match pushed_segment(url, s1) {
        None => None,
        Some(u) => pushed_segment(u, s2),
    }
}

/// One query pair appended if the value is present.
pub open spec fn maybe_appended_pair(
    url: Seq<char>,
    key: Seq<char>,
    value: Option<Seq<char>>,
) -> Option<Seq<char>> {
    match value {
        Some(v) => appended_pair(url, key, v),
        None => Some(url),
    }
}

/// The profile endpoints: token issuance, account information, balance.
pub struct Profile {
    pub auth: String,
    pub me: String,
    pub balance: String,
}

impl Profile {
    /// What the three profile URLs are, relative to the root.
    pub open spec fn spec_wf(&self, base_url: Seq<char>) -> bool {
        &&& Some(self.auth@) == pushed_segment2(base_url, "auth"@, "access-token"@)
        &&& Some(self.me@) == pushed_segment(base_url, "me"@)
        &&& Some(self.balance@) == pushed_segment2(base_url, "me"@, "balance"@)
    }

    /// Whether the root URL can carry the profile paths.
    pub open spec fn spec_buildable(base_url: Seq<char>) -> bool {
        &&& pushed_segment2(base_url, "auth"@, "access-token"@) is Some
        &&& pushed_segment2(base_url, "me"@, "balance"@) is Some
    }

    /// Derives the profile URLs from the root: it succeeds exactly when
    /// the root URL can carry the segments.
    pub fn new(base_context: &context::BaseContext) -> (r: Option<Profile>)
        ensures
            (r is Some) == Self::spec_buildable(base_context.base_url@),
            r matches Some(p) ==> p.spec_wf(base_context.base_url@),
    {
        let auth_base = match with_path_segment(base_context.base_url.as_str(), "auth") {
            Some(u) => u,
            None => {
                return None;
            },
        };
        let auth = match with_path_segment(auth_base.as_str(), "access-token") {
            Some(u) => u,
            None => {
                return None;
            },
        };
        let me = match with_path_segment(base_context.base_url.as_str(), "me") {
            Some(u) => u,
            None => {
                return None;
            },
        };
        let balance = match with_path_segment(me.as_str(), "balance") {
            Some(u) => u,
            None => {
                return None;
            },
        };
        Some(Profile { auth, me, balance })
    }

    /// The token-minting request: a POST to the auth URL whose bearer is
    /// the long-lived API secret. No resource request is built here; this
    /// is the only request that carries the secret.
    pub fn get_access_token(&self, api_context: &context::ApiContext) -> (r: Option<RequestSpec>)
        ensures
            r matches Some(req) ==> spec_bodyless_request(
                Method::Post,
                api_context.api_key@,
                self.auth@,
                req,
            ),
            r is Some,
    {
        Some(create_post_request_with_url(api_context.api_key.as_str(), self.auth.as_str()))
    }

    /// The account-information request: a GET on `/me`.
    pub fn get_me(&self, access_token: &str) -> (r: Option<RequestSpec>)
        ensures
            r matches Some(req) ==> spec_bodyless_request(Method::Get, access_token@, self.me@, req),
            r is Some,
    {
        Some(create_get_request_with_url(access_token, self.me.as_str()))
    }

    /// The balance request: a GET on `/me/balance`.
    pub fn get_balance(&self, access_token: &str) -> (r: Option<RequestSpec>)
        ensures
            r matches Some(req) ==> spec_bodyless_request(
                Method::Get,
                access_token@,
                self.balance@,
                req,
            ),
            r is Some,
    {
        Some(create_get_request_with_url(access_token, self.balance.as_str()))
    }
}

impl Clone for Profile {
    fn clone(&self) -> (r: Self)
        ensures
            r == *self,
    {
        Profile { auth: self.auth.clone(), me: self.me.clone(), balance: self.balance.clone() }
    }
}

/// The coin endpoints.
pub struct Coin {
    pub coins: String,
}

impl Coin {
    pub open spec fn spec_wf(&self, base_url: Seq<char>) -> bool {
        Some(self.coins@) == pushed_segment(base_url, "coins"@)
    }

    /// Whether the root URL can carry the coins path.
    pub open spec fn spec_buildable(base_url: Seq<char>) -> bool {
        pushed_segment(base_url, "coins"@) is Some
    }

    /// Derives the coins URL from the root: it succeeds exactly when the
    /// root URL can carry the segment.
    pub fn new(base_context: &context::BaseContext) -> (r: Option<Coin>)
        ensures
            (r is Some) == Self::spec_buildable(base_context.base_url@),
            r matches Some(c) ==> c.spec_wf(base_context.base_url@),
    {
        match with_path_segment(base_context.base_url.as_str(), "coins") {
            Some(coins) => Some(Coin { coins }),
            None => None,
        }
    }

    /// The request that lists every coin.
    pub fn coins(&self, access_token: &str) -> (r: Option<RequestSpec>)
        ensures
            r matches Some(req) ==> spec_bodyless_request(
                Method::Get,
                access_token@,
                self.coins@,
                req,
            ),
            r is Some,
    {
        Some(create_get_request_with_url(access_token, self.coins.as_str()))
    }

    /// The request for one coin, by its wire name.
    pub fn coin(&self, coin: coin::Coin, access_token: &str) -> (r: Option<RequestSpec>)
        ensures
            (r is Some) == (pushed_segment(self.coins@, coin.spec_name()) is Some),
            r matches Some(req) ==> (pushed_segment(self.coins@, coin.spec_name()) matches Some(u)
                && spec_bodyless_request(Method::Get, access_token@, u, req)),
    {
        match with_path_segment(self.coins.as_str(), coin.get_name()) {
            Some(url) => Some(create_get_request_with_url(access_token, url.as_str())),
            None => None,
        }
    }
}

impl Clone for Coin {
    fn clone(&self) -> (r: Self)
        ensures
            r == *self,
    {
        Coin { coins: self.coins.clone() }
    }
}

/// The exchange endpoints: the order book, the caller's own orders, and
/// trades.
pub struct Exchange {
    pub orders: String,
    pub my: String,
    pub trades: String,
}

impl Exchange {
    pub open spec fn spec_wf(&self, base_url: Seq<char>) -> bool {
        &&& Some(self.orders@) == pushed_segment2(base_url, "exchange"@, "orders"@)
        &&& Some(self.my@) == pushed_segment(self.orders@, "my"@)
        &&& Some(self.trades@) == pushed_segment(self.orders@, "trades"@)
    }

    /// Whether the root URL can carry the exchange paths.
    pub open spec fn spec_buildable(base_url: Seq<char>) -> bool {
        match pushed_segment2(base_url, "exchange"@, "orders"@) {
            Some(orders) => pushed_segment(orders, "my"@) is Some && pushed_segment(
                orders,
                "trades"@,
            ) is Some,
            None => false,
        }
    }

    /// Derives the exchange URLs from the root: it succeeds exactly when
    /// the root URL can carry the segments.
    pub fn new(base_context: &context::BaseContext) -> (r: Option<Exchange>)
        ensures
            (r is Some) == Self::spec_buildable(base_context.base_url@),
            r matches Some(e) ==> e.spec_wf(base_context.base_url@),
    {
        let exchange_url = match with_path_segment(base_context.base_url.as_str(), "exchange") {
            Some(u) => u,
            None => {
                return None;
            },
        };
        let orders = match with_path_segment(exchange_url.as_str(), "orders") {
            Some(u) => u,
            None => {
                return None;
            },
        };
        let my = match with_path_segment(orders.as_str(), "my") {
            Some(u) => u,
            None => {
                return None;
            },
        };
        let trades = match with_path_segment(orders.as_str(), "trades") {
            Some(u) => u,
            None => {
                return None;
            },
        };
        Some(Exchange { orders, my, trades })
    }

    /// The URL of the order book filtered by pair, offset and limit.
    pub open spec fn spec_orders_url(
        &self,
        pair: Seq<char>,
        offset: Option<u32>,
        limit: Option<u32>,
    ) -> Option<Seq<char>> {
        match appended_pair(self.orders@, "pair"@, pair) {
            None => None,
            Some(u) => spec_with_offset_and_limit(u, offset, limit),
        }
    }

    /// The request that lists orders of a pair. A missing offset defaults
    /// to 0 and a missing limit to 50.
    pub fn get_orders(
        &self,
        pair: coin::CoinPair,
        offset: Option<u32>,
        limit: Option<u32>,
        access_token: &str,
    ) -> (r: Option<RequestSpec>)
        ensures
            (r is Some) == (self.spec_orders_url(pair.spec_code(), offset, limit) is Some),
            r matches Some(req) ==> (self.spec_orders_url(pair.spec_code(), offset, limit)
                matches Some(u) && spec_bodyless_request(Method::Get, access_token@, u, req)),
    {
        let with_pair = match with_query_pair(self.orders.as_str(), "pair", pair.code().as_str()) {
            Some(u) => u,
            None => {
                return None;
            },
        };
        match add_offset_and_limit_parameters(with_pair.as_str(), offset, limit) {
            Some(url) => Some(create_get_request_with_url(access_token, url.as_str())),
            None => None,
        }
    }

    /// The request that creates an order: a POST of the serialized
    /// `amount`, `pair`, `rate` body to the order book.
    pub fn post_order(
        &self,
        pair: coin::CoinPair,
        amount: String,
        rate: String,
        access_token: &str,
    ) -> (r: Option<RequestSpec>)
        ensures
            r matches Some(req) ==> spec_json_request(
                Method::Post,
                access_token@,
                self.orders@,
                json::order_request_json(amount@, pair.spec_code(), rate@),
                req,
            ),
            r is Some,
    {
        let order_request = models::OrderRequest::new(pair, amount, rate);
        let body = json::encode_order_request(&order_request);
        Some(create_json_request_with_url(Method::Post, access_token, self.orders.as_str(), body))
    }

    /// The URL of the caller's own orders, with the optional pair and
    /// status filters and the offset/limit defaults.
    pub open spec fn spec_my_orders_url(
        &self,
        pair: Option<Seq<char>>,
        status: Option<Seq<char>>,
        offset: Option<u32>,
        limit: Option<u32>,
    ) -> Option<Seq<char>> {
        match maybe_appended_pair(self.my@, "pair"@, pair) {
            None => None,
            Some(u1) => match maybe_appended_pair(u1, "status"@, status) {
                None => None,
                Some(u2) => spec_with_offset_and_limit(u2, offset, limit),
            },
        }
    }

    /// The view of an optional pair's wire form.
    pub open spec fn spec_opt_pair_code(pair: Option<coin::CoinPair>) -> Option<Seq<char>> {
        match pair {
            Some(p) => Some(p.spec_code()),
            None => None,
        }
    }

    /// The view of an optional string.
    pub open spec fn spec_opt_view(s: Option<String>) -> Option<Seq<char>> {
        match s {
            Some(v) => Some(v@),
            None => None,
        }
    }

    /// The request that lists the caller's own orders.
    pub fn get_my_orders(
        &self,
        pair: Option<coin::CoinPair>,
        status: Option<String>,
        offset: Option<u32>,
        limit: Option<u32>,
        access_token: &str,
    ) -> (r: Option<RequestSpec>)
        ensures
            ({
                let target = self.spec_my_orders_url(
                    Self::spec_opt_pair_code(pair),
                    Self::spec_opt_view(status),
                    offset,
                    limit,
                );
                &&& (r is Some) == (target is Some)
                &&& (r matches Some(req) ==> (target matches Some(u) && spec_bodyless_request(
                    Method::Get,
                    access_token@,
                    u,
                    req,
                )))
            }),
    {
        let with_pair = match pair {
            Some(p) => {
                match with_query_pair(self.my.as_str(), "pair", p.code().as_str()) {
                    Some(u) => u,
                    None => {
                        return None;
                    },
                }
            },
            None => self.my.clone(),
        };
        let with_status = match status {
            Some(s) => {
                match with_query_pair(with_pair.as_str(), "status", s.as_str()) {
                    Some(u) => u,
                    None => {
                        return None;
                    },
                }
            },
            None => with_pair,
        };
        match add_offset_and_limit_parameters(with_status.as_str(), offset, limit) {
            Some(url) => Some(create_get_request_with_url(access_token, url.as_str())),
            None => None,
        }
    }

    /// The view of an optional number's decimal rendering.
    pub open spec fn spec_opt_decimal(n: Option<u32>) -> Option<Seq<char>> {
        match n {
            Some(v) => Some(textfmt::dec_digits(v as nat)),
            None => None,
        }
    }

    /// The URL of the trade list, with the optional order filter and the
    /// offset/limit defaults.
    pub open spec fn spec_trades_url(
        &self,
        order_id: Option<u32>,
        offset: Option<u32>,
        limit: Option<u32>,
    ) -> Option<Seq<char>> {
        match maybe_appended_pair(self.trades@, "order_id"@, Self::spec_opt_decimal(order_id)) {
            None => None,
            Some(u) => spec_with_offset_and_limit(u, offset, limit),
        }
    }

    /// The request that lists trades, optionally those of one order.
    pub fn get_trades(
        &self,
        order_id: Option<u32>,
        offset: Option<u32>,
        limit: Option<u32>,
        access_token: &str,
    ) -> (r: Option<RequestSpec>)
        ensures
            (r is Some) == (self.spec_trades_url(order_id, offset, limit) is Some),
            r matches Some(req) ==> (self.spec_trades_url(order_id, offset, limit) matches Some(u)
                && spec_bodyless_request(Method::Get, access_token@, u, req)),
    {
        let with_order = match order_id {
            Some(id) => {
                match with_query_pair(
                    self.trades.as_str(),
                    "order_id",
                    textfmt::u64_to_string(id as u64).as_str(),
                ) {
                    Some(u) => u,
                    None => {
                        return None;
                    },
                }
            },
            None => self.trades.clone(),
        };
        match add_offset_and_limit_parameters(with_order.as_str(), offset, limit) {
            Some(url) => Some(create_get_request_with_url(access_token, url.as_str())),
            None => None,
        }
    }

    /// The request for one trade, by id.
    pub fn get_trade_by_id(&self, id: &str, access_token: &str) -> (r: Option<RequestSpec>)
        ensures
            (r is Some) == (pushed_segment(self.trades@, id@) is Some),
            r matches Some(req) ==> (pushed_segment(self.trades@, id@) matches Some(u)
                && spec_bodyless_request(Method::Get, access_token@, u, req)),
    {
        match with_path_segment(self.trades.as_str(), id) {
            Some(url) => Some(create_get_request_with_url(access_token, url.as_str())),
            None => None,
        }
    }

    /// The request for one order, by id.
    pub fn get_order_by_id(&self, id: &str, access_token: &str) -> (r: Option<RequestSpec>)
        ensures
            (r is Some) == (pushed_segment(self.orders@, id@) is Some),
            r matches Some(req) ==> (pushed_segment(self.orders@, id@) matches Some(u)
                && spec_bodyless_request(Method::Get, access_token@, u, req)),
    {
        match with_path_segment(self.orders.as_str(), id) {
            Some(url) => Some(create_get_request_with_url(access_token, url.as_str())),
            None => None,
        }
    }

    /// The request that updates one order: a PUT of the serialized
    /// `amount`, `rate` body.
    pub fn update_order_by_id(
        &self,
        id: &str,
        order: models::UpdateOrder,
        access_token: &str,
    ) -> (r: Option<RequestSpec>)
        ensures
            (r is Some) == (pushed_segment(self.orders@, id@) is Some),
            r matches Some(req) ==> (pushed_segment(self.orders@, id@) matches Some(u)
                && spec_json_request(
                Method::Put,
                access_token@,
                u,
                json::update_order_json(order.amount@, order.rate@),
                req,
            )),
    {
        match with_path_segment(self.orders.as_str(), id) {
            Some(url) => {
                let body = json::encode_update_order(&order);
                Some(create_json_request_with_url(Method::Put, access_token, url.as_str(), body))
            },
            None => None,
        }
    }

    /// The request that deletes one order.
    pub fn delete_order_by_id(&self, id: &str, access_token: &str) -> (r: Option<RequestSpec>)
        ensures
            (r is Some) == (pushed_segment(self.orders@, id@) is Some),
            r matches Some(req) ==> (pushed_segment(self.orders@, id@) matches Some(u)
                && spec_bodyless_request(Method::Delete, access_token@, u, req)),
    {
        match with_path_segment(self.orders.as_str(), id) {
            Some(url) => Some(
                RequestSpec {
                    method: Method::Delete,
                    url,
                    headers: crate::request::default_headers(access_token),
                    body: String::new(),
                },
            ),
            None => None,
        }
    }

    /// The request that activates one order: a bodyless POST on
    /// `{order}/activate`.
    pub fn activate_order_by_id(&self, id: &str, access_token: &str) -> (r: Option<RequestSpec>)
        ensures
            (r is Some) == (pushed_segment2(self.orders@, id@, "activate"@) is Some),
            r matches Some(req) ==> (pushed_segment2(self.orders@, id@, "activate"@) matches Some(
                u,
            ) && spec_bodyless_request(Method::Post, access_token@, u, req)),
    {
        let with_id = match with_path_segment(self.orders.as_str(), id) {
            Some(u) => u,
            None => {
                return None;
            },
        };
        match with_path_segment(with_id.as_str(), "activate") {
            Some(url) => Some(create_post_request_with_url(access_token, url.as_str())),
            None => None,
        }
    }

    /// The request that deactivates one order: a bodyless POST on
    /// `{order}/deactivate`.
    pub fn deactivate_order_by_id(&self, id: &str, access_token: &str) -> (r: Option<RequestSpec>)
        ensures
            (r is Some) == (pushed_segment2(self.orders@, id@, "deactivate"@) is Some),
            r matches Some(req) ==> (pushed_segment2(self.orders@, id@, "deactivate"@)
                matches Some(u) && spec_bodyless_request(Method::Post, access_token@, u, req)),
    {
        let with_id = match with_path_segment(self.orders.as_str(), id) {
            Some(u) => u,
            None => {
                return None;
            },
        };
        match with_path_segment(with_id.as_str(), "deactivate") {
            Some(url) => Some(create_post_request_with_url(access_token, url.as_str())),
            None => None,
        }
    }

    /// The request that creates a trade on one order: a POST of the
    /// serialized `amount`, `rate` body to `{order}/trades`.
    pub fn create_trade_for_order(
        &self,
        id: &str,
        trade: &models::CreateTradeRequest,
        access_token: &str,
    ) -> (r: Option<RequestSpec>)
        ensures
            (r is Some) == (pushed_segment2(self.orders@, id@, "trades"@) is Some),
            r matches Some(req) ==> (pushed_segment2(self.orders@, id@, "trades"@) matches Some(u)
                && spec_json_request(
                Method::Post,
                access_token@,
                u,
                json::update_order_json(trade.amount@, trade.rate@),
                req,
            )),
    {
        let with_id = match with_path_segment(self.orders.as_str(), id) {
            Some(u) => u,
            None => {
                return None;
            },
        };
        match with_path_segment(with_id.as_str(), "trades") {
            Some(url) => {
                let body = json::encode_create_trade(trade);
                Some(create_json_request_with_url(Method::Post, access_token, url.as_str(), body))
            },
            None => None,
        }
    }
}

impl Clone for Exchange {
    fn clone(&self) -> (r: Self)
        ensures
            r == *self,
    {
        Exchange {
            orders: self.orders.clone(),
            my: self.my.clone(),
            trades: self.trades.clone(),
        }
    }
}

/// The joined wire names of an optional list of coins, without a
/// separator.
pub open spec fn spec_opt_coin_names(coins: Option<Seq<coin::Coin>>) -> Option<Seq<char>> {
    match coins {
        Some(cs) => Some(
            textfmt::concat_all(Seq::new(cs.len(), |i: int| cs[i].spec_name())),
        ),
        None => None,
    }
}

/// The joined views of an optional list of strings, without a separator.
pub open spec fn spec_opt_joined(items: Option<Seq<Seq<char>>>) -> Option<Seq<char>> {
    match items {
        Some(vs) => Some(textfmt::concat_all(vs)),
        None => None,
    }
}

/// The joined decimal renderings of an optional list of numbers.
pub open spec fn spec_opt_joined_decimals(items: Option<Seq<u32>>) -> Option<Seq<char>> {
    match items {
        Some(vs) => Some(textfmt::concat_decimals(vs)),
        None => None,
    }
}

/// The rendering of an optional date.
pub open spec fn spec_opt_date(date: Option<models::IsoDate>) -> Option<Seq<char>> {
    match date {
        Some(d) => Some(d.spec_render()),
        None => None,
    }
}

/// The invoice endpoints.
pub struct Invoice {
    pub invoices: String,
}

impl Invoice {
    pub open spec fn spec_wf(&self, base_url: Seq<char>) -> bool {
        Some(self.invoices@) == pushed_segment(base_url, "invoices"@)
    }

    /// Whether the root URL can carry the invoices path.
    pub open spec fn spec_buildable(base_url: Seq<char>) -> bool {
        pushed_segment(base_url, "invoices"@) is Some
    }

    /// Derives the invoices URL from the root: it succeeds exactly when
    /// the root URL can carry the segment.
    pub fn new(base_context: &context::BaseContext) -> (r: Option<Invoice>)
        ensures
            (r is Some) == Self::spec_buildable(base_context.base_url@),
            r matches Some(i) ==> i.spec_wf(base_context.base_url@),
    {
        match with_path_segment(base_context.base_url.as_str(), "invoices") {
            Some(invoices) => Some(Invoice { invoices }),
            None => None,
        }
    }

    /// The URL of the invoice list under all its filters: the joined
    /// `coins`, `fiat`, `country_code`, `payment_system_id` and `lang_id`
    /// values, then offset and limit with their defaults, then the two
    /// dates. A status filter is accepted for symmetry with the other
    /// filters but never appended to the query.
    pub open spec fn spec_invoices_url(
        &self,
        coins: Option<Seq<char>>,
        fiat: Option<Seq<char>>,
        country_code: Option<Seq<char>>,
        payment_system_id: Option<Seq<char>>,
        lang_id: Option<Seq<char>>,
        offset: Option<u32>,
        limit: Option<u32>,
        date_start: Option<Seq<char>>,
        date_end: Option<Seq<char>>,
    ) -> Option<Seq<char>> {
        match maybe_appended_pair(self.invoices@, "coins"@, coins) {
            None => None,
            Some(u1) => match maybe_appended_pair(u1, "fiat"@, fiat) {
                None => None,
                Some(u2) => match maybe_appended_pair(u2, "country_code"@, country_code) {
                    None => None,
                    Some(u3) => match maybe_appended_pair(
                        u3,
                        "payment_system_id"@,
                        payment_system_id,
                    ) {
                        None => None,
                        Some(u4) => match maybe_appended_pair(u4, "lang_id"@, lang_id) {
                            None => None,
                            Some(u5) => match spec_with_offset_and_limit(u5, offset, limit) {
                                None => None,
                                Some(u6) => match maybe_appended_pair(
                                    u6,
                                    "date_start"@,
                                    date_start,
                                ) {
                                    None => None,
                                    Some(u7) => maybe_appended_pair(u7, "date_end"@, date_end),
                                },
                            },
                        },
                    },
                },
            },
        }
    }

    /// The request that lists invoices under the given filters.
    pub fn get_invoices(
        &self,
        coins: Option<&Vec<coin::Coin>>,
        fiat: Option<&Vec<String>>,
        country_code: Option<&Vec<String>>,
        payment_system_id: Option<&Vec<models::PaymentSystemId>>,
        lang_id: Option<&Vec<String>>,
        status: Option<&Vec<models::InvoiceStatus>>,
        offset: Option<u32>,
        limit: Option<u32>,
        date_start: Option<models::IsoDate>,
        date_end: Option<models::IsoDate>,
        access_token: &str,
    ) -> (r: Option<RequestSpec>)
        ensures
            ({
                let target = self.spec_invoices_url(
                    spec_opt_coin_names(match coins {
                        Some(cs) => Some(cs@),
                        None => None,
                    }),
                    spec_opt_joined(match fiat {
                        Some(vs) => Some(vs.deep_view()),
                        None => None,
                    }),
                    spec_opt_joined(match country_code {
                        Some(vs) => Some(vs.deep_view()),
                        None => None,
                    }),
                    spec_opt_joined_decimals(match payment_system_id {
                        Some(vs) => Some(vs@),
                        None => None,
                    }),
                    spec_opt_joined(match lang_id {
                        Some(vs) => Some(vs.deep_view()),
                        None => None,
                    }),
                    offset,
                    limit,
                    spec_opt_date(date_start),
                    spec_opt_date(date_end),
                );
                &&& (r is Some) == (target is Some)
                &&& (r matches Some(req) ==> (target matches Some(u) && spec_bodyless_request(
                    Method::Get,
                    access_token@,
                    u,
                    req,
                )))
            }),
    {
        let _ = status;
        let url = self.invoices.clone();
        let url = match coins {
            Some(cs) => {
                let joined = Self::join_coin_names(cs);
                match with_query_pair(url.as_str(), "coins", joined.as_str()) {
                    Some(u) => u,
                    None => {
                        return None;
                    },
                }
            },
            None => url,
        };
        let url = match fiat {
            Some(vs) => {
                let joined = textfmt::join_all(vs);
                match with_query_pair(url.as_str(), "fiat", joined.as_str()) {
                    Some(u) => u,
                    None => {
                        return None;
                    },
                }
            },
            None => url,
        };
        let url = match country_code {
            Some(vs) => {
                let joined = textfmt::join_all(vs);
                match with_query_pair(url.as_str(), "country_code", joined.as_str()) {
                    Some(u) => u,
                    None => {
                        return None;
                    },
                }
            },
            None => url,
        };
        let url = match payment_system_id {
            Some(vs) => {
                let joined = textfmt::join_decimals(vs);
                match with_query_pair(url.as_str(), "payment_system_id", joined.as_str()) {
                    Some(u) => u,
                    None => {
                        return None;
                    },
                }
            },
            None => url,
        };
        let url = match lang_id {
            Some(vs) => {
                let joined = textfmt::join_all(vs);
                match with_query_pair(url.as_str(), "lang_id", joined.as_str()) {
                    Some(u) => u,
                    None => {
                        return None;
                    },
                }
            },
            None => url,
        };
        let url = match add_offset_and_limit_parameters(url.as_str(), offset, limit) {
            Some(u) => u,
            None => {
                return None;
            },
        };
        let url = match date_start {
            Some(d) => {
                match with_query_pair(url.as_str(), "date_start", d.render().as_str()) {
                    Some(u) => u,
                    None => {
                        return None;
                    },
                }
            },
            None => url,
        };
        let url = match date_end {
            Some(d) => {
                match with_query_pair(url.as_str(), "date_end", d.render().as_str()) {
                    Some(u) => u,
                    None => {
                        return None;
                    },
                }
            },
            None => url,
        };
        Some(create_get_request_with_url(access_token, url.as_str()))
    }

    /// Joins the wire names of the given coins without a separator.
    fn join_coin_names(coins: &Vec<coin::Coin>) -> (r: String)
        ensures
            Some(r@) == spec_opt_coin_names(Some(coins@)),
    {
        let mut names: Vec<String> = Vec::new();
        let mut i: usize = 0;
        while i < coins.len()
            invariant
                i <= coins.len(),
                names@.len() == i,
                forall|j: int| 0 <= j < i ==> names@[j]@ == coins@[j].spec_name(),
            decreases coins.len() - i,
        {
            names.push(coins[i].to_name());
            i += 1;
        }
        let joined = textfmt::join_all(&names);
        proof {
            assert(names.deep_view() =~= Seq::new(
                coins@.len(),
                |j: int| coins@[j].spec_name(),
            ));
        }
        joined
    }

    /// The request that creates an invoice: a POST of its serialized
    /// body.
    pub fn create_invoice(
        &self,
        create_invoice: models::CreateInvoice,
        access_token: &str,
    ) -> (r: Option<RequestSpec>)
        ensures
            r matches Some(req) ==> spec_json_request(
                Method::Post,
                access_token@,
                self.invoices@,
                json::create_invoice_json(create_invoice),
                req,
            ),
            r is Some,
    {
        let body = json::encode_create_invoice(&create_invoice);
        Some(create_json_request_with_url(Method::Post, access_token, self.invoices.as_str(), body))
    }

    /// The request for one invoice, by id.
    pub fn get_invoice_by_id(&self, id: &str, access_token: &str) -> (r: Option<RequestSpec>)
        ensures
            (r is Some) == (pushed_segment(self.invoices@, id@) is Some),
            r matches Some(req) ==> (pushed_segment(self.invoices@, id@) matches Some(u)
                && spec_bodyless_request(Method::Get, access_token@, u, req)),
    {
        match with_path_segment(self.invoices.as_str(), id) {
            Some(url) => Some(create_get_request_with_url(access_token, url.as_str())),
            None => None,
        }
    }
}

impl Clone for Invoice {
    fn clone(&self) -> (r: Self)
        ensures
            r == *self,
    {
        Invoice { invoices: self.invoices.clone() }
    }
}

/// The payment-system endpoints: estimation and lookup.
pub struct PaymentSystem {
    pub payment_systems: String,
    pub estimate: String,
}

impl PaymentSystem {
    pub open spec fn spec_wf(&self, base_url: Seq<char>) -> bool {
        &&& Some(self.payment_systems@) == pushed_segment(base_url, "payment-systems"@)
        &&& Some(self.estimate@) == pushed_segment(self.payment_systems@, "estimate"@)
    }

    /// Whether the root URL can carry the payment-system paths.
    pub open spec fn spec_buildable(base_url: Seq<char>) -> bool {
        match pushed_segment(base_url, "payment-systems"@) {
            Some(payment_systems) => pushed_segment(payment_systems, "estimate"@) is Some,
            None => false,
        }
    }

    /// Derives the payment-system URLs from the root: it succeeds exactly
    /// when the root URL can carry the segments.
    pub fn new(base_context: &context::BaseContext) -> (r: Option<PaymentSystem>)
        ensures
            (r is Some) == Self::spec_buildable(base_context.base_url@),
            r matches Some(p) ==> p.spec_wf(base_context.base_url@),
    {
        let payment_systems = match with_path_segment(
            base_context.base_url.as_str(),
            "payment-systems",
        ) {
            Some(u) => u,
            None => {
                return None;
            },
        };
        let estimate = match with_path_segment(payment_systems.as_str(), "estimate") {
            Some(u) => u,
            None => {
                return None;
            },
        };
        Some(PaymentSystem { payment_systems, estimate })
    }

    /// The request that estimates payment systems for an amount of a
    /// coin: a POST of the serialized `amount`, `coin` body.
    pub fn get_list_of_estimated_payment_systems(
        &self,
        estimate: models::Estimate,
        access_token: &str,
    ) -> (r: Option<RequestSpec>)
        ensures
            r matches Some(req) ==> spec_json_request(
                Method::Post,
                access_token@,
                self.estimate@,
                json::estimate_json(estimate.amount@, estimate.coin@),
                req,
            ),
            r is Some,
    {
        let body = json::encode_estimate(&estimate);
        Some(create_json_request_with_url(Method::Post, access_token, self.estimate.as_str(), body))
    }

    /// The request for one payment system, by its numeric id.
    pub fn get_payment_system_by_id(
        &self,
        id: models::PaymentSystemId,
        access_token: &str,
    ) -> (r: Option<RequestSpec>)
        ensures
            ({
                let target = pushed_segment(
                    self.payment_systems@,
                    textfmt::dec_digits(id as nat),
                );
                &&& (r is Some) == (target is Some)
                &&& (r matches Some(req) ==> (target matches Some(u) && spec_bodyless_request(
                    Method::Get,
                    access_token@,
                    u,
                    req,
                )))
            }),
    {
        match with_path_segment(
            self.payment_systems.as_str(),
            textfmt::u64_to_string(id as u64).as_str(),
        ) {
            Some(url) => Some(create_get_request_with_url(access_token, url.as_str())),
            None => None,
        }
    }
}

impl Clone for PaymentSystem {
    fn clone(&self) -> (r: Self)
        ensures
            r == *self,
    {
        PaymentSystem {
            payment_systems: self.payment_systems.clone(),
            estimate: self.estimate.clone(),
        }
    }
}

} // verus!
