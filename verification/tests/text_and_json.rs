//! Text rendering, JSON encoding and URL construction.

use chatex_sdk_rust::coin::{Coin, CoinPair};
use chatex_sdk_rust::context::BaseContext;
use chatex_sdk_rust::endpoint;
use chatex_sdk_rust::json;
use chatex_sdk_rust::models::{
    CreateInvoice, CreateTradeRequest, Estimate, InvoiceStatus, IsoDate, OrderRequest, UpdateOrder,
};
use chatex_sdk_rust::textfmt;
use chatex_sdk_rust::urlops;

#[test]
fn decimal_rendering() {
    assert_eq!(textfmt::u64_to_string(0), "0");
    assert_eq!(textfmt::u64_to_string(7), "7");
    assert_eq!(textfmt::u64_to_string(1234), "1234");
    assert_eq!(textfmt::u64_to_string(u64::MAX), "18446744073709551615");
    assert_eq!(textfmt::i64_to_string(0), "0");
    assert_eq!(textfmt::i64_to_string(-5), "-5");
    assert_eq!(textfmt::i64_to_string(i64::MIN), "-9223372036854775808");
    assert_eq!(textfmt::i64_to_string(i64::MAX), "9223372036854775807");
}

#[test]
fn padding_and_joining() {
    assert_eq!(textfmt::u64_to_padded_string(7, 4), "0007");
    assert_eq!(textfmt::u64_to_padded_string(2021, 4), "2021");
    assert_eq!(textfmt::u64_to_padded_string(12345, 4), "12345");
    let parts = vec!["ab".to_owned(), "".to_owned(), "cd".to_owned()];
    assert_eq!(textfmt::join_all(&parts), "abcd");
    assert_eq!(textfmt::join_decimals(&vec![1, 22, 333]), "122333");
    assert!(textfmt::str_eq("same", "same"));
    assert!(!textfmt::str_eq("same", "sane"));
    assert!(!textfmt::str_eq("same", "sameish"));
}

#[test]
fn date_rendering() {
    assert_eq!(IsoDate::new(2021, 3, 4).render(), "2021-03-04");
    assert_eq!(IsoDate::new(980, 12, 31).render(), "0980-12-31");
}

#[test]
fn coin_names_round_trip() {
    let listed = [
        (Coin::BTC, "btc"),
        (Coin::LTC, "ltc"),
        (Coin::BCH, "bch"),
        (Coin::XRP, "xrp"),
        (Coin::BTG, "btg"),
        (Coin::ETH, "eth"),
        (Coin::TRX, "trx"),
        (Coin::DASH, "dash"),
        (Coin::USDT, "usdt"),
        (Coin::TON, "ton_crystal"),
    ];
    for (coin, name) in listed {
        assert_eq!(coin.get_name(), name);
        assert_eq!(Coin::from_name(name).get_name(), name);
    }
    let unknown = Coin::from_name("doge");
    assert!(matches!(&unknown, Coin::Unknown(n) if n == "doge"));
    assert_eq!(unknown.get_name(), "doge");
}

#[test]
fn pair_codes() {
    let pair = CoinPair::new(Coin::BTC, Coin::ETH);
    assert_eq!(pair.code(), "btc/eth");
    assert_eq!(pair.reversed().code(), "eth/btc");
}

#[test]
fn invoice_status_codes() {
    assert_eq!(InvoiceStatus::Unassigned.as_str(), "UNASSIGNED");
    assert_eq!(InvoiceStatus::Active.as_str(), "ACTIVE");
    assert_eq!(InvoiceStatus::Completed.as_str(), "COMPLETED");
    assert_eq!(InvoiceStatus::Canceled.as_str(), "CANCELED");
}

#[test]
fn order_request_encoding() {
    let order = OrderRequest::new(
        CoinPair::new(
            Coin::Unknown("test".to_owned()),
            Coin::Unknown("test".to_owned()),
        ),
        "37".to_owned(),
        "13".to_owned(),
    );
    assert_eq!(
        json::encode_order_request(&order),
        r#"{"amount":"37","pair":"test/test","rate":"13"}"#
    );
}

#[test]
fn update_and_trade_encoding() {
    let update = UpdateOrder {
        amount: "1.5".to_owned(),
        rate: "0.25".to_owned(),
    };
    assert_eq!(
        json::encode_update_order(&update),
        r#"{"amount":"1.5","rate":"0.25"}"#
    );
    let trade = CreateTradeRequest {
        amount: "5".to_owned(),
        rate: "9".to_owned(),
    };
    assert_eq!(
        json::encode_create_trade(&trade),
        r#"{"amount":"5","rate":"9"}"#
    );
    let estimate = Estimate {
        amount: "100".to_owned(),
        coin: "btc".to_owned(),
    };
    assert_eq!(
        json::encode_estimate(&estimate),
        r#"{"amount":"100","coin":"btc"}"#
    );
}

#[test]
fn invoice_encoding() {
    let invoice = CreateInvoice {
        amount: "10".to_owned(),
        callback_url: "https://example.com/cb".to_owned(),
        coin: "btc".to_owned(),
        country_code: "DE".to_owned(),
        data: "payload".to_owned(),
        fiat: "EUR".to_owned(),
        lang_id: "de".to_owned(),
        payment_system_id: "3".to_owned(),
        redirect_url: "https://example.com/done".to_owned(),
    };
    assert_eq!(
        json::encode_create_invoice(&invoice),
        r#"{"amount":"10","callback_url":"https://example.com/cb","coin":"btc","country_code":"DE","data":"payload","fiat":"EUR","lang_id":"de","payment_system_id":"3","redirect_url":"https://example.com/done"}"#
    );
}

/// The encoder escapes exactly as serde_json does.
#[test]
fn escaping_matches_the_json_standard() {
    let tricky = "q\"uote b\\ack \n\t\r\u{8}\u{c}\u{1}\u{1f} plain ünïcode";
    let update = UpdateOrder {
        amount: tricky.to_owned(),
        rate: "r".to_owned(),
    };
    let encoded = json::encode_update_order(&update);
    let mut object = serde_json::Map::new();
    object.insert(
        "amount".to_owned(),
        serde_json::Value::String(tricky.to_owned()),
    );
    object.insert("rate".to_owned(), serde_json::Value::String("r".to_owned()));
    let serde_rendering = serde_json::to_string(&serde_json::Value::Object(object)).unwrap();
    assert_eq!(encoded, serde_rendering);
    // And the encoded body parses back to the same strings.
    let parsed: serde_json::Value = serde_json::from_str(&encoded).unwrap();
    assert_eq!(parsed.get("amount").unwrap().as_str().unwrap(), tricky);
}

#[test]
fn path_segments_are_appended_and_encoded() {
    let base = BaseContext::new("http://localhost:8000".to_owned());
    let coins = endpoint::Coin::new(&base).unwrap();
    assert_eq!(coins.coins, "http://localhost:8000/coins");
    // A segment with a space and a slash is percent-encoded.
    let request = coins
        .coin(Coin::from_name("bal ance/x"), "TOKEN")
        .unwrap();
    assert_eq!(request.url, "http://localhost:8000/coins/bal%20ance%2Fx");
    // A root that does not parse, or cannot carry segments, builds nothing.
    assert!(endpoint::Coin::new(&BaseContext::new("not a url".to_owned())).is_none());
    assert!(endpoint::Coin::new(&BaseContext::new(
        "mailto:someone@example.com".to_owned()
    ))
    .is_none());
}

#[test]
fn query_pairs_are_appended_and_encoded() {
    let base = BaseContext::new("http://localhost:8000".to_owned());
    let exchange = endpoint::Exchange::new(&base).unwrap();
    let request = exchange
        .get_orders(
            CoinPair::new(
                Coin::Unknown("test".to_owned()),
                Coin::Unknown("test".to_owned()),
            ),
            None,
            None,
            "TOKEN",
        )
        .unwrap();
    assert_eq!(
        request.url,
        "http://localhost:8000/exchange/orders?pair=test%2Ftest&offset=0&limit=50"
    );
}

#[test]
fn offset_and_limit_defaults() {
    let url = "http://localhost:8000/exchange/orders";
    assert_eq!(
        urlops::add_offset_and_limit_parameters(url, None, None).unwrap(),
        "http://localhost:8000/exchange/orders?offset=0&limit=50"
    );
    assert_eq!(
        urlops::add_offset_and_limit_parameters(url, Some(7), Some(99)).unwrap(),
        "http://localhost:8000/exchange/orders?offset=7&limit=99"
    );
}

#[test]
fn invoice_filters_build_one_query() {
    let base = BaseContext::new("http://localhost:8000".to_owned());
    let invoice = endpoint::Invoice::new(&base).unwrap();
    let coins = vec![Coin::BTC, Coin::ETH];
    let fiat = vec!["EUR".to_owned(), "USD".to_owned()];
    let ids: Vec<u32> = vec![3, 14];
    let request = invoice
        .get_invoices(
            Some(&coins),
            Some(&fiat),
            None,
            Some(&ids),
            None,
            Some(&vec![InvoiceStatus::Active]),
            Some(2),
            None,
            Some(IsoDate::new(2021, 1, 2)),
            Some(IsoDate::new(2021, 12, 31)),
            "TOKEN",
        )
        .unwrap();
    // The joined filter values, the offset/limit defaults, and the dates,
    // in order; the status filter is accepted but never sent.
    assert_eq!(
        request.url,
        "http://localhost:8000/invoices?coins=btceth&fiat=EURUSD&payment_system_id=314&offset=2&limit=50&date_start=2021-01-02&date_end=2021-12-31"
    );
}

#[test]
fn trade_filters_build_one_query() {
    let base = BaseContext::new("http://localhost:8000".to_owned());
    let exchange = endpoint::Exchange::new(&base).unwrap();
    let request = exchange
        .get_trades(Some(42), Some(1), Some(10), "TOKEN")
        .unwrap();
    assert_eq!(
        request.url,
        "http://localhost:8000/exchange/orders/trades?order_id=42&offset=1&limit=10"
    );
    let request = exchange
        .get_my_orders(
            Some(CoinPair::new(Coin::BTC, Coin::ETH)),
            Some("ACTIVE".to_owned()),
            None,
            None,
            "TOKEN",
        )
        .unwrap();
    assert_eq!(
        request.url,
        "http://localhost:8000/exchange/orders/my?pair=btc%2Feth&status=ACTIVE&offset=0&limit=50"
    );
}

#[test]
fn token_request_carries_the_secret_only() {
    let base = BaseContext::new("http://localhost:8000".to_owned());
    let profile = endpoint::Profile::new(&base).unwrap();
    let api = chatex_sdk_rust::context::ApiContext::new(base, "SECRET".to_owned());
    let request = profile.get_access_token(&api).unwrap();
    assert_eq!(request.url, "http://localhost:8000/auth/access-token");
    assert!(request
        .headers
        .iter()
        .any(|(n, v)| n == "Authorization" && v == "Bearer SECRET"));
    // A resource request built afterwards carries the access token, not
    // the secret.
    let me = profile.get_me("TOKEN").unwrap();
    assert!(me
        .headers
        .iter()
        .any(|(n, v)| n == "Authorization" && v == "Bearer TOKEN"));
    assert!(!me.headers.iter().any(|(_, v)| v.contains("SECRET")));
}

#[test]
fn extract_access_token_reads_the_fields() {
    let body = br#"{"expires_at": 99, "access_token": "abc"}"#;
    let token = chatex_sdk_rust::extractor::extract_access_token(body).unwrap();
    assert_eq!(token.access_token, "abc");
    assert_eq!(token.expires_at, 99);
    assert!(chatex_sdk_rust::extractor::extract_access_token(b"{}").is_none());
    assert!(chatex_sdk_rust::extractor::extract_access_token(b"nope").is_none());
}
