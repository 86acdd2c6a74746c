//! The invoice resource client: listing under filters, creation, and
//! lookup by id. It holds only its endpoint table; each call borrows the
//! client's one shared base, so every resource client of one client uses
//! the same token cache.

use vstd::prelude::*;

verus! {

use crate::client_base::ClientBase;
use crate::coin;
use crate::context;
use crate::endpoint;
use crate::error::Error;
use crate::json;
use crate::models;
use crate::request::{
    Method,
    RequestSpec,
    Transport,
    spec_bodyless_request,
    spec_json_request,
};
use crate::urlops::pushed_segment;

pub struct InvoiceClient {
    pub invoice: endpoint::Invoice,
}

/// The joined views behind an optional coin filter.
pub open spec fn spec_opt_coin_seq(coins: Option<&Vec<coin::Coin>>) -> Option<Seq<char>> {
    match coins {
        Some(cs) => endpoint::spec_opt_coin_names(Some(cs@)),
        None => None,
    }
}

/// The joined views behind an optional string filter.
pub open spec fn spec_opt_joined_strings(items: Option<&Vec<String>>) -> Option<Seq<char>> {
    match items {
        Some(vs) => endpoint::spec_opt_joined(Some(vs.deep_view())),
        None => None,
    }
}

/// The joined decimals behind an optional id filter.
pub open spec fn spec_opt_joined_ids(items: Option<&Vec<u32>>) -> Option<Seq<char>> {
    match items {
        Some(vs) => endpoint::spec_opt_joined_decimals(Some(vs@)),
        None => None,
    }
}

impl InvoiceClient {
    pub fn new(invoice: endpoint::Invoice) -> (r: InvoiceClient)
        ensures
            r.invoice == invoice,
    {
        InvoiceClient { invoice }
    }

    /// Lists invoices under the given filters as their raw JSON body.
    /// A valid cached token is reused and left untouched; with a valid
    /// token, an invoice URL the filters cannot extend is an internal
    /// error before any transport call.
    pub fn get_invoices<T: Transport>(
        &self,
        base: &mut ClientBase<T>,
        coins: Option<&Vec<coin::Coin>>,
        fiat: Option<&Vec<String>>,
        country_code: Option<&Vec<String>>,
        payment_system_id: Option<&Vec<models::PaymentSystemId>>,
        lang_id: Option<&Vec<String>>,
        status: Option<&Vec<models::InvoiceStatus>>,
        offset: Option<u32>,
        limit: Option<u32>,
        date_start: Option<models::IsoDate>,
        date_end: Option<models::IsoDate>,
        now: i64,
    ) -> (r: Result<Vec<u8>, Error>)
        ensures
            final(base).api_context == old(base).api_context,
            final(base).access_controller.profile == old(base).access_controller.profile,
            old(base).spec_has_valid_token(now) ==> final(base).access_controller == old(
                base,
            ).access_controller,
            (old(base).spec_has_valid_token(now) && self.invoice.spec_invoices_url(
                spec_opt_coin_seq(coins),
                spec_opt_joined_strings(fiat),
                spec_opt_joined_strings(country_code),
                spec_opt_joined_ids(payment_system_id),
                spec_opt_joined_strings(lang_id),
                offset,
                limit,
                endpoint::spec_opt_date(date_start),
                endpoint::spec_opt_date(date_end),
            ) is None) ==> r == Err::<Vec<u8>, Error>(Error::InternalServerError),
    {
        let factory = move |access_token: context::AccessToken, invoice: &endpoint::Invoice| ->
            (r: Option<RequestSpec>)
            ensures
                (r is Some) == (invoice.spec_invoices_url(
                    spec_opt_coin_seq(coins),
                    spec_opt_joined_strings(fiat),
                    spec_opt_joined_strings(country_code),
                    spec_opt_joined_ids(payment_system_id),
                    spec_opt_joined_strings(lang_id),
                    offset,
                    limit,
                    endpoint::spec_opt_date(date_start),
                    endpoint::spec_opt_date(date_end),
                ) is Some),
                r matches Some(req) ==> (invoice.spec_invoices_url(
                    spec_opt_coin_seq(coins),
                    spec_opt_joined_strings(fiat),
                    spec_opt_joined_strings(country_code),
                    spec_opt_joined_ids(payment_system_id),
                    spec_opt_joined_strings(lang_id),
                    offset,
                    limit,
                    endpoint::spec_opt_date(date_start),
                    endpoint::spec_opt_date(date_end),
                ) matches Some(u) && spec_bodyless_request(Method::Get, access_token@, u, req)),
            {
                invoice.get_invoices(
                    coins,
                    fiat,
                    country_code,
                    payment_system_id,
                    lang_id,
                    status,
                    offset,
                    limit,
                    date_start,
                    date_end,
                    access_token.as_str(),
                )
            };
        let request = match base.create_request(&self.invoice, factory, now) {
            Ok(req) => req,
            Err(failure) => {
                return Err(failure);
            },
        };
        base.call_to_endpoint(request)
    }

    /// Creates an invoice: a POST of its serialized body, answered with
    /// the raw JSON body of the result. A valid cached token is reused
    /// and left untouched.
    pub fn create_invoice<T: Transport>(
        &self,
        base: &mut ClientBase<T>,
        create_invoice: models::CreateInvoice,
        now: i64,
    ) -> (r: Result<Vec<u8>, Error>)
        ensures
            final(base).api_context == old(base).api_context,
            final(base).access_controller.profile == old(base).access_controller.profile,
            old(base).spec_has_valid_token(now) ==> final(base).access_controller == old(
                base,
            ).access_controller,
    {
        let body_spec: Ghost<Seq<char>> = Ghost(json::create_invoice_json(create_invoice));
        let factory = move |access_token: context::AccessToken, invoice: &endpoint::Invoice| ->
            (r: Option<RequestSpec>)
            ensures
                r is Some,
                r matches Some(req) ==> spec_json_request(
                    Method::Post,
                    access_token@,
                    invoice.invoices@,
                    body_spec@,
                    req,
                ),
            { invoice.create_invoice(clone_create_invoice(&create_invoice), access_token.as_str()) };
        let request = match base.create_request(&self.invoice, factory, now) {
            Ok(req) => req,
            Err(failure) => {
                return Err(failure);
            },
        };
        base.call_to_endpoint(request)
    }

    /// Fetches one invoice, by id, as its raw JSON body. A valid cached
    /// token is reused and left untouched; with a valid token, an
    /// invoice URL the id cannot extend is an internal error before any
    /// transport call.
    pub fn get_invoice_by_id<T: Transport>(
        &self,
        base: &mut ClientBase<T>,
        id: &str,
        now: i64,
    ) -> (r: Result<Vec<u8>, Error>)
        ensures
            final(base).api_context == old(base).api_context,
            final(base).access_controller.profile == old(base).access_controller.profile,
            old(base).spec_has_valid_token(now) ==> final(base).access_controller == old(
                base,
            ).access_controller,
            (old(base).spec_has_valid_token(now) && pushed_segment(self.invoice.invoices@, id@)
                is None) ==> r == Err::<Vec<u8>, Error>(Error::InternalServerError),
    {
        let id_owned = id.to_owned();
        let factory = move |access_token: context::AccessToken, invoice: &endpoint::Invoice| ->
            (r: Option<RequestSpec>)
            ensures
                (r is Some) == (pushed_segment(invoice.invoices@, id_owned@) is Some),
                r matches Some(req) ==> (pushed_segment(invoice.invoices@, id_owned@)
                    matches Some(u) && spec_bodyless_request(Method::Get, access_token@, u, req)),
            { invoice.get_invoice_by_id(id_owned.as_str(), access_token.as_str()) };
        let request = match base.create_request(&self.invoice, factory, now) {
            Ok(req) => req,
            Err(failure) => {
                return Err(failure);
            },
        };
        base.call_to_endpoint(request)
    }
}

impl Clone for InvoiceClient {
    fn clone(&self) -> (r: Self)
        ensures
            r == *self,
    {
        InvoiceClient { invoice: self.invoice.clone() }
    }
}

/// Clones an invoice-creation body, keeping its value.
fn clone_create_invoice(invoice: &models::CreateInvoice) -> (r: models::CreateInvoice)
    ensures
        r == *invoice,
{
    models::CreateInvoice {
        amount: invoice.amount.clone(),
        callback_url: invoice.callback_url.clone(),
        coin: invoice.coin.clone(),
        country_code: invoice.country_code.clone(),
        data: invoice.data.clone(),
        fiat: invoice.fiat.clone(),
        lang_id: invoice.lang_id.clone(),
        payment_system_id: invoice.payment_system_id.clone(),
        redirect_url: invoice.redirect_url.clone(),
    }
}

} // verus!
