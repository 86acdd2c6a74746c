//! A typed client library for a cryptocurrency exchange's REST API.
//!
//! The core of the library is the access-token lifecycle: a bearer token is
//! acquired lazily, cached together with its expiry, and refreshed before it
//! runs out. Around that core sit a generic authorized request pipeline
//! (build, send, classify, decode) and thin per-resource clients. All request
//! classification, token bookkeeping and request construction is verified;
//! the raw transport is abstracted behind the [`request::Transport`] trait.

pub mod access_controller;
pub mod chatex_client;
pub mod client_base;
pub mod coin;
pub mod coin_client;
pub mod context;
pub mod endpoint;
pub mod error;
pub mod exchange_client;
pub mod extractor;
pub mod invoice_client;
pub mod json;
pub mod models;
pub mod payment_system_client;
pub mod profile_client;
pub mod request;
pub mod textfmt;
pub mod urlops;

pub use chatex_client::ChatexClient;
pub use coin_client::CoinClient;
pub use error::Error;
pub use exchange_client::ExchangeClient;
pub use invoice_client::InvoiceClient;
pub use payment_system_client::PaymentSystemClient;
pub use profile_client::ProfileClient;
