//! Plain data types shared across the client.
//!
//! Values that arrive on the wire as text (prices, timestamps) are kept as
//! the wire text; the library never interprets them numerically.

use vstd::prelude::*;

verus! {

/// The three incompatible authentication schemes of the platform.
/// V1 and V2 share the legacy header-token response shape; V3 uses
/// OAuth-style tokens in the response body.
#[derive(Clone, Copy, PartialEq, Eq, Structural, Debug)]
pub enum AuthVersion {
    V1,
    V2,
    V3,
}

/// A legacy authenticated session: the two header tokens plus the account.
#[derive(Clone, Debug)]
pub struct IgSession {
    pub cst: String,
    pub token: String,
    pub account_id: String,
}

/// Mathematical view of an [`IgSession`].
pub struct IgSessionV {
    pub cst: Seq<char>,
    pub token: Seq<char>,
    pub account_id: Seq<char>,
}

impl View for IgSession {
    type V = IgSessionV;

    open spec fn view(&self) -> IgSessionV {
        IgSessionV { cst: self.cst@, token: self.token@, account_id: self.account_id@ }
    }
}

/// The body fields of a legacy login response.
#[derive(Clone, Debug)]
pub struct SessionResp {
    pub account_id: String,
    pub client_id: Option<String>,
    pub timezone_offset: Option<i32>,
}

/// The body of an account-switch response.
#[derive(Clone, Copy, PartialEq, Eq, Structural, Debug)]
pub struct AccountSwitchResponse {
    pub dealing_enabled: bool,
    pub has_active_demo_accounts: bool,
    pub has_active_live_accounts: bool,
    pub trailing_stops_enabled: bool,
}

/// The JSON rendering of a boolean.
pub open spec fn spec_bool_text(b: bool) -> Seq<char> {
    if b {
        "true"@
    } else {
        "false"@
    }
}

/// Renders a boolean.
pub fn bool_text(b: bool) -> (r: &'static str)
    ensures
        r@ == spec_bool_text(b),
{
    if b {
        "true"
    } else {
        "false"
    }
}

impl AccountSwitchResponse {
    /// The JSON rendering of the switch response.
    pub open spec fn spec_display(&self) -> Seq<char> {
        "{\"dealingEnabled\":"@ + spec_bool_text(self.dealing_enabled)
            + ",\"hasActiveDemoAccounts\":"@ + spec_bool_text(self.has_active_demo_accounts)
            + ",\"hasActiveLiveAccounts\":"@ + spec_bool_text(self.has_active_live_accounts)
            + ",\"trailingStopsEnabled\":"@ + spec_bool_text(self.trailing_stops_enabled) + "}"@
    }

    /// Renders the switch response.
    pub fn display_string(&self) -> (r: String)
        ensures
            r@ == self.spec_display(),
    {
        let mut r = "{\"dealingEnabled\":".to_owned();
        r.append(bool_text(self.dealing_enabled));
        r.append(",\"hasActiveDemoAccounts\":");
        r.append(bool_text(self.has_active_demo_accounts));
        r.append(",\"hasActiveLiveAccounts\":");
        r.append(bool_text(self.has_active_live_accounts));
        r.append(",\"trailingStopsEnabled\":");
        r.append(bool_text(self.trailing_stops_enabled));
        r.append("}");
        r
    }
}

/// Kinds of streaming subscriptions.
#[derive(Clone, Copy, PartialEq, Eq, Structural, Debug, Hash)]
pub enum SubscriptionType {
    Market,
    Account,
    Trade,
    Chart,
}

/// A client-registered interest in one stream of updates.
#[derive(Clone, Debug)]
pub struct Subscription {
    /// The subscription id, generator-assigned and opaque.
    pub id: String,
    /// The kind of stream.
    pub subscription_type: SubscriptionType,
    /// The item subscribed to, e.g. an instrument epic or "ACCOUNT".
    pub item: String,
}

/// Mathematical view of a [`Subscription`].
pub struct SubscriptionV {
    pub id: Seq<char>,
    pub kind: SubscriptionType,
    pub item: Seq<char>,
}

impl View for Subscription {
    type V = SubscriptionV;

    open spec fn view(&self) -> SubscriptionV {
        SubscriptionV {
            id: self.id@,
            kind: self.subscription_type,
            item: self.item@,
        }
    }
}

/// A market data update, fields as wire text.
#[derive(Clone, Debug)]
pub struct MarketUpdate {
    pub epic: String,
    pub bid: String,
    pub offer: String,
    pub timestamp: String,
}

/// Mathematical view of a [`MarketUpdate`].
pub struct MarketUpdateV {
    pub epic: Seq<char>,
    pub bid: Seq<char>,
    pub offer: Seq<char>,
    pub timestamp: Seq<char>,
}

impl View for MarketUpdate {
    type V = MarketUpdateV;

    open spec fn view(&self) -> MarketUpdateV {
        MarketUpdateV {
            epic: self.epic@,
            bid: self.bid@,
            offer: self.offer@,
            timestamp: self.timestamp@,
        }
    }
}

/// An account update, payload as wire text.
#[derive(Clone, Debug)]
pub struct AccountUpdate {
    pub account_id: String,
    pub update_type: String,
    pub payload: String,
}

/// Mathematical view of an [`AccountUpdate`].
pub struct AccountUpdateV {
    pub account_id: Seq<char>,
    pub update_type: Seq<char>,
    pub payload: Seq<char>,
}

impl View for AccountUpdate {
    type V = AccountUpdateV;

    open spec fn view(&self) -> AccountUpdateV {
        AccountUpdateV {
            account_id: self.account_id@,
            update_type: self.update_type@,
            payload: self.payload@,
        }
    }
}

/// Activity of the account over a period.
#[derive(Clone, Debug)]
pub struct AccountActivity {
    pub activities: Vec<Activity>,
}

/// One account activity entry.
#[derive(Clone, Debug)]
pub struct Activity {
    pub date: String,
    pub deal_id: String,
    pub epic: String,
    pub period: String,
    pub deal_reference: String,
    pub activity_type: String,
    pub status: String,
    pub description: String,
    pub details: Option<String>,
}

/// Pagination metadata of the transaction history.
#[derive(Clone, Copy, PartialEq, Eq, Structural, Debug)]
pub struct PageData {
    pub page_number: i32,
    pub page_size: i32,
    pub total_pages: i32,
}

/// Metadata of a transaction-history page.
#[derive(Clone, Copy, PartialEq, Eq, Structural, Debug)]
pub struct TransactionMetadata {
    pub page_data: PageData,
    pub size: i32,
}

/// A raw transaction row as the history endpoint returns it.
#[derive(Clone, Debug)]
pub struct RawTransaction {
    pub date: String,
    pub date_utc: String,
    pub open_date_utc: String,
    pub instrument_name: String,
    pub period: String,
    pub pnl_raw: String,
    pub transaction_type: String,
    pub reference: String,
    pub open_level: String,
    pub close_level: String,
    pub size: String,
    pub currency: String,
    pub cash_transaction: bool,
}

/// The kind of a market instrument.
#[derive(Clone, Copy, PartialEq, Eq, Structural, Debug)]
pub enum InstrumentType {
    Shares,
    Currencies,
    Indices,
    SprintMarket,
    Commodities,
    Options,
    Binary,
    Unknown,
}

/// Remaining quota for historical price requests.
#[derive(Clone, Copy, PartialEq, Eq, Structural, Debug)]
pub struct PriceAllowance {
    pub remaining_allowance: i64,
    pub total_allowance: i64,
    pub allowance_expiry: i64,
}

/// Direction of an order.
#[derive(Clone, Copy, PartialEq, Eq, Structural, Debug)]
pub enum Direction {
    Buy,
    Sell,
}

/// Kind of an order.
#[derive(Clone, Copy, PartialEq, Eq, Structural, Debug)]
pub enum OrderType {
    Limit,
    Market,
    Quote,
    Stop,
    StopLimit,
}

/// Server-reported state of an order.
#[derive(Clone, Copy, PartialEq, Eq, Structural, Debug)]
pub enum OrderStatus {
    Accepted,
    Rejected,
    Working,
    Filled,
    Cancelled,
    Expired,
}

/// How long an order stays live.
#[derive(Clone, Copy, PartialEq, Eq, Structural, Debug)]
pub enum TimeInForce {
    GoodTillCancelled,
    GoodTillDate,
    ImmediateOrCancel,
    FillOrKill,
}

/// Reply to the creation of an order.
#[derive(Clone, Debug)]
pub struct CreateOrderResponse {
    pub deal_reference: String,
}

/// Reply to closing a position.
#[derive(Clone, Debug)]
pub struct ClosePositionResponse {
    pub deal_reference: String,
}

} // verus!
