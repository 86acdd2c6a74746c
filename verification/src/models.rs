//! The response and request payload models, held as plain values. Amounts
//! and rates are decimal strings, as they travel on the wire; turning them
//! into numbers is left to the caller.

use vstd::prelude::*;

verus! {

use crate::coin::CoinPair;

/// The token endpoint's payload: the bearer token and the epoch second at
/// which the server declares it expired.
#[derive(Debug)]
pub struct AccessToken {
    pub access_token: String,
    pub expires_at: i64,
}

impl Clone for AccessToken {
    fn clone(&self) -> (r: Self)
        ensures
            r == *self,
    {
        AccessToken { access_token: self.access_token.clone(), expires_at: self.expires_at }
    }
}

/// The `/me` payload.
#[derive(Clone, Debug)]
pub struct BasicInfo {
    pub id: i64,
    pub merchant_info: Option<MerchantInfo>,
    pub profile: Profile,
}

#[derive(Clone, Debug)]
pub struct MerchantInfo {
    pub name: String,
    pub usd_amount_max_limit: String,
}

#[derive(Clone, Debug)]
pub struct Profile {
    pub country_code: String,
    pub email: Option<String>,
    pub is_finance_blocked: bool,
    pub lang_id: String,
    pub limits: AML5Limits,
    pub phone: String,
    pub username: String,
    pub verification: Verification,
}

#[derive(Clone, Debug)]
pub struct AML5Limits {
    pub current_turnover: String,
    pub current_withdraw: String,
    pub turnover_limit: String,
    pub withdraw_limit: String,
    pub withdraw_limit_daily: String,
}

#[derive(Clone, Debug)]
pub struct Verification {
    pub current_level: String,
}

pub type Balance = Vec<Currency>;

/// One line of the balance summary.
#[derive(Clone, Debug)]
pub struct Currency {
    pub amount: String,
    pub coin: String,
    pub held: String,
}

pub type Coins = Vec<Coin>;

/// A coin as the exchange describes it.
#[derive(Clone, Debug)]
pub struct Coin {
    pub decimals: u32,
    pub full_name: String,
    pub name: String,
}

pub type Orders = Vec<Order>;

/// An order as the exchange reports it.
#[derive(Clone, Debug)]
pub struct Order {
    pub amount: String,
    pub created_at: String,
    pub id: u32,
    pub initial_amount: Option<String>,
    pub is_owner: Option<bool>,
    pub pair: String,
    pub rate: String,
    pub status: String,
    pub updated_at: String,
}

/// The body of a request that creates an order.
#[derive(Clone, Debug)]
pub struct OrderRequest {
    pub amount: String,
    pub pair: String,
    pub rate: String,
}

impl OrderRequest {
    /// Builds the request body for the given pair, amount and rate. The
    /// pair is rendered in its `left/right` wire form.
    pub fn new(pair: CoinPair, amount: String, rate: String) -> (r: OrderRequest)
        ensures
            r.pair@ == pair.spec_code(),
            r.amount == amount,
            r.rate == rate,
    {
        OrderRequest { pair: pair.code(), amount, rate }
    }
}

/// The body of a request that updates an order.
#[derive(Clone, Debug)]
pub struct UpdateOrder {
    pub amount: String,
    pub rate: String,
}

pub type Trades = Vec<Trade>;

/// A trade as the exchange reports it.
#[derive(Clone, Debug)]
pub struct Trade {
    pub amount: String,
    pub created_at: String,
    pub fee: String,
    pub id: u32,
    pub order: Order,
    pub received_amount: String,
    pub updated_at: String,
}

/// The body of a request that creates a trade on an order.
#[derive(Clone, Debug)]
pub struct CreateTradeRequest {
    pub amount: String,
    pub rate: String,
}

pub type Invoices = Vec<Invoice>;

/// An invoice as the exchange reports it. The amount is kept as the
/// decimal string it travels as.
#[derive(Clone, Debug)]
pub struct Invoice {
    pub amount: String,
    pub callback_url: String,
    pub coin: String,
    pub country_code: String,
    pub created_at: String,
    pub fiat: String,
    pub id: String,
    pub lang_id: String,
    pub payment_system_id: PaymentSystemId,
    pub payment_url: String,
    pub redirect_url: String,
    pub status: String,
}

/// The body of a request that creates an invoice.
#[derive(Clone, Debug)]
pub struct CreateInvoice {
    pub amount: String,
    pub callback_url: String,
    pub coin: String,
    pub country_code: String,
    pub data: String,
    pub fiat: String,
    pub lang_id: String,
    pub payment_system_id: String,
    pub redirect_url: String,
}

/// The lifecycle states of an invoice.
#[derive(Clone, Debug, PartialEq, Eq, Structural)]
pub enum InvoiceStatus {
    Unassigned,
    Active,
    Completed,
    Canceled,
}

impl InvoiceStatus {
    /// The wire form of the status.
    pub open spec fn spec_code(&self) -> Seq<char> {
        match self {
            InvoiceStatus::Unassigned => "UNASSIGNED"@,
            InvoiceStatus::Active => "ACTIVE"@,
            InvoiceStatus::Completed => "COMPLETED"@,
            InvoiceStatus::Canceled => "CANCELED"@,
        }
    }

    /// Renders the status as the exchange spells it.
    pub fn as_str(&self) -> (r: &'static str)
        ensures
            r@ == self.spec_code(),
    {
        match self {
            InvoiceStatus::Unassigned => "UNASSIGNED",
            InvoiceStatus::Active => "ACTIVE",
            InvoiceStatus::Completed => "COMPLETED",
            InvoiceStatus::Canceled => "CANCELED",
        }
    }
}

pub type PaymentSystemId = u32;

/// A payment system as the exchange describes it.
#[derive(Clone, Debug)]
pub struct PaymentSystem {
    pub id: PaymentSystemId,
    pub name: String,
}

/// The body of a request that estimates payment systems for an amount of
/// a coin.
#[derive(Clone, Debug)]
pub struct Estimate {
    pub amount: String,
    pub coin: String,
}

pub type FiatEstimations = Vec<FiatEstimation>;

#[derive(Clone, Debug)]
pub struct FiatEstimation {
    pub estimations: PaymentSystemEstimations,
    pub fiat: Fiat,
}

pub type PaymentSystemEstimations = Vec<PaymentSystemEstimation>;

/// One estimated fiat amount, kept as the decimal string it travels as.
#[derive(Clone, Debug)]
pub struct PaymentSystemEstimation {
    pub estimated_fiat_amount: String,
    pub payment_system: PaymentSystem,
}

#[derive(Clone, Debug)]
pub struct Fiat {
    pub decimals: u32,
    pub full_name: String,
    pub name: String,
}

/// A calendar date, as invoices filter on one: year, month and day of a
/// Gregorian date, rendered `YYYY-MM-DD` in query strings.
#[derive(Clone, Copy, Debug, PartialEq, Eq, Structural)]
pub struct IsoDate {
    pub year: u32,
    pub month: u32,
    pub day: u32,
}

impl IsoDate {
    /// The `YYYY-MM-DD` rendering, with each part zero-padded.
    pub open spec fn spec_render(&self) -> Seq<char> {
        crate::textfmt::zero_padded(crate::textfmt::dec_digits(self.year as nat), 4) + "-"@
            + crate::textfmt::zero_padded(crate::textfmt::dec_digits(self.month as nat), 2) + "-"@
            + crate::textfmt::zero_padded(crate::textfmt::dec_digits(self.day as nat), 2)
    }

    pub fn new(year: u32, month: u32, day: u32) -> (r: IsoDate)
        ensures
            r == (IsoDate { year, month, day }),
    {
        IsoDate { year, month, day }
    }

    /// Renders the date as `YYYY-MM-DD`.
    pub fn render(&self) -> (r: String)
        ensures
            r@ == self.spec_render(),
    {
        let mut out = crate::textfmt::u64_to_padded_string(self.year as u64, 4);
        vstd::string::StringExecFns::append(&mut out, "-");
        vstd::string::StringExecFns::append(
            &mut out,
            crate::textfmt::u64_to_padded_string(self.month as u64, 2).as_str(),
        );
        vstd::string::StringExecFns::append(&mut out, "-");
        vstd::string::StringExecFns::append(
            &mut out,
            crate::textfmt::u64_to_padded_string(self.day as u64, 2).as_str(),
        );
        out
    }
}

} // verus!
