//! End-to-end scenarios against a scripted in-memory transport: the
//! token lifecycle, the authorized pipeline, and the resource clients.

use chatex_sdk_rust::access_controller::AccessController;
use chatex_sdk_rust::client_base::ClientBase;
use chatex_sdk_rust::coin::{Coin, CoinPair};
use chatex_sdk_rust::coin_client::CoinClient;
use chatex_sdk_rust::context::{AccessContext, ApiContext, BaseContext};
use chatex_sdk_rust::endpoint;
use chatex_sdk_rust::exchange_client::ExchangeClient;
use chatex_sdk_rust::models::AccessToken;
use chatex_sdk_rust::profile_client::ProfileClient;
use chatex_sdk_rust::request::{HttpResponse, Method, RequestSpec, Transport, TransportFailure};
use chatex_sdk_rust::Error;

const SECRET: &str = "SECRET";
const BASE_URL: &str = "http://localhost:8000";
const AUTH_URL: &str = "http://localhost:8000/auth/access-token";

/// A transport that answers the token endpoint and one resource endpoint
/// from a script, checking each request it sees.
struct ScriptedTransport {
    token_status: u16,
    token_body: Vec<u8>,
    token_calls: usize,
    expected_method: Method,
    expected_url: String,
    expected_body: String,
    resource_status: u16,
    resource_body: Vec<u8>,
    resource_calls: usize,
}

impl ScriptedTransport {
    fn with_token(token_body: &str) -> ScriptedTransport {
        ScriptedTransport {
            token_status: 200,
            token_body: token_body.as_bytes().to_vec(),
            token_calls: 0,
            expected_method: Method::Get,
            expected_url: String::new(),
            expected_body: String::new(),
            resource_status: 200,
            resource_body: Vec::new(),
            resource_calls: 0,
        }
    }

    fn default_token() -> ScriptedTransport {
        ScriptedTransport::with_token(r#"{"access_token":"TOKEN","expires_at":1337}"#)
    }

    fn expecting(
        mut self,
        method: Method,
        url: &str,
        body: &str,
        status: u16,
        response: &str,
    ) -> ScriptedTransport {
        self.expected_method = method;
        self.expected_url = url.to_owned();
        self.expected_body = body.to_owned();
        self.resource_status = status;
        self.resource_body = response.as_bytes().to_vec();
        self
    }
}

fn has_header(request: &RequestSpec, name: &str, value: &str) -> bool {
    request
        .headers
        .iter()
        .any(|(n, v)| n == name && v == value)
}

fn check_token_request(request: &RequestSpec) {
    assert_eq!(request.method, Method::Post);
    assert!(has_header(request, "Authorization", "Bearer SECRET"));
    assert!(has_header(request, "Accept", "application/json"));
    assert_eq!(request.body, "");
}

impl Transport for ScriptedTransport {
    fn send(&mut self, request: &RequestSpec) -> Result<HttpResponse, TransportFailure> {
        if request.url == AUTH_URL {
            check_token_request(request);
            self.token_calls += 1;
            return Ok(HttpResponse {
                status: self.token_status,
                body: self.token_body.clone(),
            });
        }
        assert_eq!(request.url, self.expected_url);
        assert_eq!(request.method, self.expected_method);
        assert!(has_header(request, "Authorization", "Bearer TOKEN"));
        assert!(has_header(request, "Accept", "application/json"));
        assert_eq!(request.body, self.expected_body);
        if !self.expected_body.is_empty() {
            assert!(has_header(request, "Content-Type", "application/json"));
        }
        self.resource_calls += 1;
        Ok(HttpResponse {
            status: self.resource_status,
            body: self.resource_body.clone(),
        })
    }
}

/// A transport that must never be reached.
struct UnreachableTransport;

impl Transport for UnreachableTransport {
    fn send(&mut self, _request: &RequestSpec) -> Result<HttpResponse, TransportFailure> {
        panic!("the transport must not be touched");
    }
}

/// A transport that always fails at the connection level.
struct DownTransport;

impl Transport for DownTransport {
    fn send(&mut self, _request: &RequestSpec) -> Result<HttpResponse, TransportFailure> {
        Err(TransportFailure)
    }
}

/// A transport that answers the token endpoint from a script and every
/// other request with an empty JSON array, counting both.
struct AnyOkTransport {
    token_body: Vec<u8>,
    token_calls: usize,
    resource_calls: usize,
}

impl AnyOkTransport {
    fn new(token_body: &str) -> AnyOkTransport {
        AnyOkTransport {
            token_body: token_body.as_bytes().to_vec(),
            token_calls: 0,
            resource_calls: 0,
        }
    }
}

impl Transport for AnyOkTransport {
    fn send(&mut self, request: &RequestSpec) -> Result<HttpResponse, TransportFailure> {
        if request.url == AUTH_URL {
            check_token_request(request);
            self.token_calls += 1;
            return Ok(HttpResponse {
                status: 200,
                body: self.token_body.clone(),
            });
        }
        assert!(has_header(request, "Authorization", "Bearer TOKEN"));
        self.resource_calls += 1;
        Ok(HttpResponse {
            status: 200,
            body: b"[]".to_vec(),
        })
    }
}

fn base_context() -> BaseContext {
    BaseContext::new(BASE_URL.to_owned())
}

fn client_base<T: Transport>(transport: T) -> ClientBase<T> {
    let base_context = base_context();
    let api_context = ApiContext::new(base_context.clone(), SECRET.to_owned());
    let profile = endpoint::Profile::new(&base_context).expect("base URL must take segments");
    let access_controller = AccessController::new(profile);
    ClientBase::new(transport, api_context, access_controller)
}

fn profile_client() -> ProfileClient {
    ProfileClient::new(endpoint::Profile::new(&base_context()).expect("base URL must take segments"))
}

fn exchange_client() -> ExchangeClient {
    ExchangeClient::new(
        endpoint::Exchange::new(&base_context()).expect("base URL must take segments"),
    )
}

fn create_test_pair() -> CoinPair {
    CoinPair::new(
        Coin::Unknown("test".to_owned()),
        Coin::Unknown("test".to_owned()),
    )
}

#[test]
fn access_token() {
    let mut base = client_base(ScriptedTransport::default_token());
    let access_token = profile_client().create_access_token(&mut base).unwrap();
    println!("{:#?}", access_token);
    assert_eq!(access_token.access_token, "TOKEN");
    assert_eq!(access_token.expires_at, 1337);
    assert_eq!(base.transport.token_calls, 1);
}

#[test]
fn basic_info() {
    let basic_info = r#"{"id":1337,"profile":{"country_code":"country_code","is_finance_blocked":false,"lang_id":"lang_id","limits":{"current_turnover":"current_turnover","current_withdraw":"current_withdraw","turnover_limit":"turnover_limit","withdraw_limit":"withdraw_limit","withdraw_limit_daily":"withdraw_limit_daily"},"phone":"phone","username":"username","verification":{"current_level":"current_level"}}}"#;
    let transport = ScriptedTransport::default_token().expecting(
        Method::Get,
        "http://localhost:8000/me",
        "",
        200,
        basic_info,
    );
    let mut base = client_base(transport);
    let account_information = profile_client()
        .get_account_information(&mut base, chrono::Utc::now().timestamp())
        .unwrap();
    println!("{}", basic_info);
    assert_eq!(account_information, basic_info.as_bytes());
    assert_eq!(base.transport.token_calls, 1);
    assert_eq!(base.transport.resource_calls, 1);
}

#[test]
fn balance() {
    let currency = r#"{"amount":"amount","coin":"coin","held":"held"}"#;
    let balance = format!("[{},{},{}]", currency, currency, currency);
    let transport = ScriptedTransport::default_token().expecting(
        Method::Get,
        "http://localhost:8000/me/balance",
        "",
        200,
        balance.as_str(),
    );
    let mut base = client_base(transport);
    let balance_summary = profile_client()
        .get_balance_summary(&mut base, chrono::Utc::now().timestamp())
        .unwrap();
    println!("{:#?}", balance_summary);
    assert_eq!(balance_summary, balance.as_bytes());
    assert_eq!(base.transport.token_calls, 1);
    assert_eq!(base.transport.resource_calls, 1);
}

#[test]
fn get_all_orders() {
    let order = r#"{"amount":"37","created_at":"created_at","id":1337,"pair":"test/test","rate":"13","status":"status","updated_at":"updated_at"}"#;
    let all_orders = format!("[{},{},{}]", order, order, order);
    let transport = ScriptedTransport::default_token().expecting(
        Method::Get,
        "http://localhost:8000/exchange/orders?pair=test%2Ftest&offset=0&limit=50",
        "",
        200,
        all_orders.as_str(),
    );
    let mut base = client_base(transport);
    let orders = exchange_client()
        .get_all_orders(
            &mut base,
            create_test_pair(),
            None,
            None,
            chrono::Utc::now().timestamp(),
        )
        .unwrap();
    println!("{:#?}", orders);
    assert_eq!(orders, all_orders.as_bytes());
    assert_eq!(base.transport.token_calls, 1);
    assert_eq!(base.transport.resource_calls, 1);
}

#[test]
fn create_order() {
    let create_order_body = r#"{"amount":"37","pair":"test/test","rate":"13"}"#;
    let created_order_body = r#"{"amount":"37","created_at":"created_at","id":1337,"pair":"test/test","rate":"13","status":"status","updated_at":"updated_at"}"#;
    let transport = ScriptedTransport::default_token().expecting(
        Method::Post,
        "http://localhost:8000/exchange/orders",
        create_order_body,
        201,
        created_order_body,
    );
    let mut base = client_base(transport);
    let created_order = exchange_client()
        .create_order_raw(
            &mut base,
            create_test_pair(),
            "37",
            "13",
            chrono::Utc::now().timestamp(),
        )
        .unwrap();
    println!("{:#?}", created_order);
    assert_eq!(created_order, created_order_body.as_bytes());
    assert_eq!(base.transport.token_calls, 1);
    assert_eq!(base.transport.resource_calls, 1);
}

/// A cached, non-expired token is returned without any network call.
#[test]
fn cached_token_needs_no_network() {
    let now: i64 = 1_700_000_000;
    let mut base = client_base(UnreachableTransport);
    base.access_controller.access_context = Some(AccessContext::new(
        base_context(),
        AccessToken {
            access_token: "TOKEN".to_owned(),
            expires_at: now + 3600,
        },
    ));
    let token = base.get_access_token(now).unwrap();
    assert_eq!(token, "TOKEN");
}

/// Sequential callers finding no cached token trigger exactly one
/// token-endpoint request: the first stores a fresh token, the rest hit
/// the cache.
#[test]
fn refresh_is_not_duplicated() {
    let now: i64 = 1_700_000_000;
    let token_body = format!(
        r#"{{"access_token":"TOKEN","expires_at":{}}}"#,
        now + 3600
    );
    let mut base = client_base(ScriptedTransport::with_token(token_body.as_str()));
    for _ in 0..3 {
        let token = base.get_access_token(now).unwrap();
        assert_eq!(token, "TOKEN");
    }
    assert_eq!(base.transport.token_calls, 1);
}

/// The clock-reading convenience behaves like the injected-time form.
#[test]
fn clock_reading_token_fetch() {
    let token_body = format!(
        r#"{{"access_token":"TOKEN","expires_at":{}}}"#,
        chrono::Utc::now().timestamp() + 3600
    );
    let mut base = client_base(ScriptedTransport::with_token(token_body.as_str()));
    for _ in 0..2 {
        let token = base.get_access_token_now().unwrap();
        assert_eq!(token, "TOKEN");
    }
    assert_eq!(base.transport.token_calls, 1);
}

/// An expired cached token is replaced wholesale by a refresh.
#[test]
fn expired_token_is_refreshed() {
    let now: i64 = 1_700_000_000;
    let token_body = format!(
        r#"{{"access_token":"TOKEN","expires_at":{}}}"#,
        now + 3600
    );
    let mut base = client_base(ScriptedTransport::with_token(token_body.as_str()));
    base.access_controller.access_context = Some(AccessContext::new(
        base_context(),
        AccessToken {
            access_token: "STALE".to_owned(),
            expires_at: now,
        },
    ));
    let token = base.get_access_token(now).unwrap();
    assert_eq!(token, "TOKEN");
    assert_eq!(base.transport.token_calls, 1);
    let stored = base.access_controller.access_context.as_ref().unwrap();
    assert_eq!(stored.access_token.access_token, "TOKEN");
    assert_eq!(stored.expires_at, now + 3600);
}

/// End-to-end: the minted token is carried as `Authorization: Bearer
/// TOKEN` on the following `/me` call, whose body comes back whole.
#[test]
fn token_flows_into_me_request() {
    let now: i64 = 1_700_000_000;
    let token_body = format!(
        r#"{{"access_token":"TOKEN","expires_at":{}}}"#,
        now + 3600
    );
    let me_body = r#"{"id":1337,"profile":{}}"#;
    let transport = ScriptedTransport::with_token(token_body.as_str()).expecting(
        Method::Get,
        "http://localhost:8000/me",
        "",
        200,
        me_body,
    );
    let mut base = client_base(transport);
    let body = profile_client()
        .get_account_information(&mut base, now)
        .unwrap();
    assert_eq!(body, me_body.as_bytes());
    assert_eq!(base.transport.token_calls, 1);
    assert_eq!(base.transport.resource_calls, 1);
}

/// Idempotence: repeated read-only calls with a valid cached token never
/// alter the cached access context.
#[test]
fn read_only_calls_keep_cached_context() {
    let now: i64 = 1_700_000_000;
    let transport = ScriptedTransport::default_token().expecting(
        Method::Get,
        "http://localhost:8000/me",
        "",
        200,
        "{}",
    );
    let mut base = client_base(transport);
    base.access_controller.access_context = Some(AccessContext::new(
        base_context(),
        AccessToken {
            access_token: "TOKEN".to_owned(),
            expires_at: now + 3600,
        },
    ));
    let client = profile_client();
    for _ in 0..3 {
        client.get_account_information(&mut base, now).unwrap();
    }
    assert_eq!(base.transport.token_calls, 0);
    assert_eq!(base.transport.resource_calls, 3);
    let stored = base.access_controller.access_context.as_ref().unwrap();
    assert_eq!(stored.access_token.access_token, "TOKEN");
    assert_eq!(stored.expires_at, now + 3600);
}

/// The five facades of one client share its single token cache: a token
/// minted through one serves the others.
#[test]
fn facades_share_one_token_cache() {
    let now: i64 = 1_700_000_000;
    let token_body = format!(
        r#"{{"access_token":"TOKEN","expires_at":{}}}"#,
        now + 3600
    );
    let mut chatex = chatex_sdk_rust::ChatexClient::new(
        AnyOkTransport::new(token_body.as_str()),
        BASE_URL.to_owned(),
        SECRET.to_owned(),
    )
    .expect("the base URL must be usable");
    let profile = chatex.profile();
    let coin = chatex.coin();
    let exchange = chatex.exchange();
    profile.get_balance_summary(&mut chatex.base, now).unwrap();
    coin.get_available_coins(&mut chatex.base, now).unwrap();
    exchange
        .get_trades(&mut chatex.base, None, None, None, now)
        .unwrap();
    // One refresh, three resource calls: the token minted through the
    // first facade served the other two.
    assert_eq!(chatex.base.transport.token_calls, 1);
    assert_eq!(chatex.base.transport.resource_calls, 3);
    let stored = chatex.base.access_controller.access_context.as_ref().unwrap();
    assert_eq!(stored.access_token.access_token, "TOKEN");
}

/// A non-2xx resource response is classified by the taxonomy, the body
/// consulted only for rate limiting.
#[test]
fn resource_errors_are_classified() {
    let now: i64 = 1_700_000_000;
    let token_body = format!(
        r#"{{"access_token":"TOKEN","expires_at":{}}}"#,
        now + 3600
    );
    let transport = ScriptedTransport::with_token(token_body.as_str()).expecting(
        Method::Get,
        "http://localhost:8000/me",
        "",
        429,
        r#"{"retryAfter":2020}"#,
    );
    let mut base = client_base(transport);
    let failure = profile_client()
        .get_account_information(&mut base, now)
        .unwrap_err();
    assert_eq!(failure, Error::RateLimitedError { retry_after: 2020 });
}

/// A token-endpoint error is classified and leaves the cache empty; no
/// stale token is used as a fallback.
#[test]
fn token_endpoint_error_propagates() {
    let now: i64 = 1_700_000_000;
    let mut transport = ScriptedTransport::default_token();
    transport.token_status = 401;
    transport.token_body = b"{}".to_vec();
    let mut base = client_base(transport);
    let failure = base.get_access_token(now).unwrap_err();
    assert_eq!(failure, Error::Unauthorized);
    assert!(base.access_controller.access_context.is_none());
}

/// A token body that does not parse surfaces as an internal error.
#[test]
fn malformed_token_body_is_an_internal_error() {
    let now: i64 = 1_700_000_000;
    let mut base = client_base(ScriptedTransport::with_token("not json"));
    let failure = base.get_access_token(now).unwrap_err();
    assert_eq!(failure, Error::InternalServerError);
    assert!(base.access_controller.access_context.is_none());
}

/// A transport that cannot reach the server at all collapses to an
/// internal error.
#[test]
fn unreachable_server_is_an_internal_error() {
    let now: i64 = 1_700_000_000;
    let mut base = client_base(DownTransport);
    let failure = base.get_access_token(now).unwrap_err();
    assert_eq!(failure, Error::InternalServerError);
}

/// The coin client asks for one coin under its percent-encoded name.
#[test]
fn coin_lookup_uses_the_wire_name() {
    let now: i64 = 1_700_000_000;
    let token_body = format!(
        r#"{{"access_token":"TOKEN","expires_at":{}}}"#,
        now + 3600
    );
    let coin_body = r#"{"decimals":8,"full_name":"Bitcoin","name":"btc"}"#;
    let transport = ScriptedTransport::with_token(token_body.as_str()).expecting(
        Method::Get,
        "http://localhost:8000/coins/btc",
        "",
        200,
        coin_body,
    );
    let mut base = client_base(transport);
    let client = CoinClient::new(endpoint::Coin::new(&base_context()).unwrap());
    let body = client.get_coin(&mut base, Coin::BTC, now).unwrap();
    assert_eq!(body, coin_body.as_bytes());
}

/// The facade derives every endpoint from the root URL.
#[test]
fn chatex_client_wires_the_endpoints() {
    let client =
        chatex_sdk_rust::ChatexClient::new(DownTransport, BASE_URL.to_owned(), SECRET.to_owned())
            .expect("the base URL must be usable");
    assert_eq!(client.profile.auth, AUTH_URL);
    assert_eq!(client.profile.me, "http://localhost:8000/me");
    assert_eq!(client.profile.balance, "http://localhost:8000/me/balance");
    assert_eq!(client.coin.coins, "http://localhost:8000/coins");
    assert_eq!(client.exchange.orders, "http://localhost:8000/exchange/orders");
    assert_eq!(client.exchange.my, "http://localhost:8000/exchange/orders/my");
    assert_eq!(
        client.exchange.trades,
        "http://localhost:8000/exchange/orders/trades"
    );
    assert_eq!(client.invoice.invoices, "http://localhost:8000/invoices");
    assert_eq!(
        client.payment_system.payment_systems,
        "http://localhost:8000/payment-systems"
    );
    assert_eq!(
        client.payment_system.estimate,
        "http://localhost:8000/payment-systems/estimate"
    );
    // The handed-out facades carry the same endpoint tables.
    assert_eq!(client.profile().profile.me, client.profile.me);
    assert_eq!(client.exchange().exchange.orders, client.exchange.orders);
    // A root that cannot carry path segments builds no client at all.
    assert!(chatex_sdk_rust::ChatexClient::new(
        DownTransport,
        "mailto:someone@example.com".to_owned(),
        SECRET.to_owned()
    )
    .is_none());
}
