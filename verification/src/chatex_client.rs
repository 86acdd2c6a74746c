//! The top-level client: built once from a transport, the API's root URL
//! and the secret, it derives every endpoint and hands out per-resource
//! clients.

use vstd::prelude::*;

verus! {

use crate::access_controller::AccessController;
use crate::client_base::ClientBase;
use crate::coin_client::CoinClient;
use crate::context;
use crate::endpoint;
use crate::exchange_client::ExchangeClient;
use crate::invoice_client::InvoiceClient;
use crate::payment_system_client::PaymentSystemClient;
use crate::profile_client::ProfileClient;
use crate::request::Transport;

/// One API client: the single shared base (transport, identity, token
/// cache) and the endpoint tables of every resource area. The facades
/// handed out below carry no state of their own; every resource call
/// borrows `base` mutably, so one token cache serves all of them, and
/// distinct clients share nothing.
pub struct ChatexClient<T> {
    pub base: ClientBase<T>,
    pub profile: endpoint::Profile,
    pub coin: endpoint::Coin,
    pub exchange: endpoint::Exchange,
    pub invoice: endpoint::Invoice,
    pub payment_system: endpoint::PaymentSystem,
}

impl<T: Transport> ChatexClient<T> {
    /// Builds a client for the API rooted at `base_url`, authenticating
    /// with `secret`. The token cache starts empty; every endpoint URL
    /// is derived from the root. It succeeds exactly when the root URL
    /// can carry every endpoint's path segments.
    pub fn new(transport: T, base_url: String, secret: String) -> (r: Option<ChatexClient<T>>)
        ensures
            (r is Some) == {
                &&& endpoint::Profile::spec_buildable(base_url@)
                &&& endpoint::Coin::spec_buildable(base_url@)
                &&& endpoint::Exchange::spec_buildable(base_url@)
                &&& endpoint::Invoice::spec_buildable(base_url@)
                &&& endpoint::PaymentSystem::spec_buildable(base_url@)
            },
            r matches Some(c) ==> {
                &&& c.base.api_context.base.base_url@ == base_url@
                &&& c.base.api_context.api_key == secret
                &&& c.base.access_controller.access_context is None
                &&& c.base.access_controller.profile == c.profile
                &&& c.base.transport == transport
                &&& c.profile.spec_wf(base_url@)
                &&& c.coin.spec_wf(base_url@)
                &&& c.exchange.spec_wf(base_url@)
                &&& c.invoice.spec_wf(base_url@)
                &&& c.payment_system.spec_wf(base_url@)
            },
    {
        let base_context = context::BaseContext::new(base_url);
        let api_context = context::ApiContext::new(base_context.clone(), secret);
        let profile = match endpoint::Profile::new(&base_context) {
            Some(p) => p,
            None => {
                return None;
            },
        };
        let coin = match endpoint::Coin::new(&base_context) {
            Some(c) => c,
            None => {
                return None;
            },
        };
        let exchange = match endpoint::Exchange::new(&base_context) {
            Some(e) => e,
            None => {
                return None;
            },
        };
        let invoice = match endpoint::Invoice::new(&base_context) {
            Some(i) => i,
            None => {
                return None;
            },
        };
        let payment_system = match endpoint::PaymentSystem::new(&base_context) {
            Some(p) => p,
            None => {
                return None;
            },
        };
        let access_controller = AccessController::new(profile.clone());
        let base = ClientBase::new(transport, api_context, access_controller);
        Some(ChatexClient { base, profile, coin, exchange, invoice, payment_system })
    }
}

impl<T: Transport> ChatexClient<T> {
    /// The profile facade: it holds only the profile endpoint table.
    /// Every call through it borrows this client's single `base`
    /// mutably, so all five facades of one client share the one token
    /// cache — a token minted through any of them serves the others.
    pub fn profile(&self) -> (r: ProfileClient)
        ensures
            r.profile == self.profile,
    {
        ProfileClient::new(self.profile.clone())
    }

    /// The coin facade; like every facade it holds only its endpoint
    /// table and works through this client's single `base`.
    pub fn coin(&self) -> (r: CoinClient)
        ensures
            r.coin == self.coin,
    {
        CoinClient::new(self.coin.clone())
    }

    /// The exchange facade; like every facade it holds only its endpoint
    /// table and works through this client's single `base`.
    pub fn exchange(&self) -> (r: ExchangeClient)
        ensures
            r.exchange == self.exchange,
    {
        ExchangeClient::new(self.exchange.clone())
    }

    /// The invoice facade; like every facade it holds only its endpoint
    /// table and works through this client's single `base`.
    pub fn invoice(&self) -> (r: InvoiceClient)
        ensures
            r.invoice == self.invoice,
    {
        InvoiceClient::new(self.invoice.clone())
    }

    /// The payment-system facade; like every facade it holds only its
    /// endpoint table and works through this client's single `base`.
    pub fn payment_system(&self) -> (r: PaymentSystemClient)
        ensures
            r.payment_system == self.payment_system,
    {
        PaymentSystemClient::new(self.payment_system.clone())
    }
}

} // verus!
