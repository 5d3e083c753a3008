use vstd::prelude::*;

use crate::time::Time;

verus! {

/// An amount of one currency unit.
#[derive(Clone, Debug, PartialEq, Eq)]
pub struct Coin {
    pub denom: String,
    pub amount: u128,
}

/// A coin as contracts see it.
pub struct CoinView {
    pub denom: Seq<char>,
    pub amount: u128,
}

impl View for Coin {
    type V = CoinView;

    open spec fn view(&self) -> CoinView {
        CoinView { denom: self.denom@, amount: self.amount }
    }
}

/// The coins of a vector, each by its view.
pub open spec fn coins_view(coins: Seq<Coin>) -> Seq<CoinView> {
    coins.map_values(|c: Coin| c@)
}

/// Who sent a message, and the funds that came with it.
#[derive(Clone, Debug, PartialEq, Eq)]
pub struct MessageInfo {
    pub sender: String,
    pub funds: Vec<Coin>,
}

/// What the authority decides about the stake of a finished meeting.
#[derive(Clone, Copy, Debug, PartialEq, Eq, Structural)]
pub enum StakeAction {
    /// The whole stake goes back to the requester.
    Return,
    /// The whole stake goes to the authority.
    FullSlash,
    /// The stake is shared in proportion to the minutes the requester was late.
    PartialSlash { minutes_late: u32 },
}

/// What a symbolic asset name stands for.
#[derive(Clone, Debug, PartialEq, Eq)]
pub enum AssetInfo {
    /// A native coin, by its denomination.
    Native(String),
    /// A token contract, by its address.
    Cw20(String),
}

/// What an asset name stands for, as contracts see it.
pub enum AssetInfoView {
    Native(Seq<char>),
    Cw20(Seq<char>),
}

impl View for AssetInfo {
    type V = AssetInfoView;

    open spec fn view(&self) -> AssetInfoView {
        match self {
            AssetInfo::Native(denom) => AssetInfoView::Native(denom@),
            AssetInfo::Cw20(address) => AssetInfoView::Cw20(address@),
        }
    }
}

/// A symbolic asset name together with what the name service answered for it.
#[derive(Clone, Debug, PartialEq, Eq)]
pub struct ResolvedAsset {
    pub entry: String,
    pub info: AssetInfo,
}

/// A resolved asset name as contracts see it.
pub struct ResolvedAssetView {
    pub entry: Seq<char>,
    pub info: AssetInfoView,
}

impl View for ResolvedAsset {
    type V = ResolvedAssetView;

    open spec fn view(&self) -> ResolvedAssetView {
        ResolvedAssetView { entry: self.entry@, info: self.info@ }
    }
}

/// A resolved asset that may be absent, by its view.
pub open spec fn resolved_asset_view(asset: Option<ResolvedAsset>) -> Option<ResolvedAssetView> {
    match asset {
        Some(asset) => Some(asset@),
        None => None,
    }
}

/// The settings a calendar starts with.
#[derive(Clone, Debug, PartialEq, Eq)]
pub struct AppInstantiateMsg {
    pub price_per_minute: u128,
    pub denom: String,
    pub utc_offset: i32,
    pub start_time: Time,
    pub end_time: Time,
}

/// The messages a calendar handles.
#[derive(Clone, Debug, PartialEq, Eq)]
pub enum AppExecuteMsg {
    /// Reserve the slot between two instants; the stake comes as the message's funds.
    RequestMeeting { start_time: i64, end_time: i64 },
    /// Keep the whole stake of a finished meeting.
    SlashFullStake { day_datetime: i64, meeting_index: u32 },
    /// Keep the part of the stake that matches the minutes the requester was late.
    SlashPartialStake { day_datetime: i64, meeting_index: u32, minutes_late: u32 },
    /// Give the whole stake of a finished meeting back.
    ReturnStake { day_datetime: i64, meeting_index: u32 },
    /// Change the price, the currency unit, or both.
    UpdateConfig { price_per_minute: Option<u128>, denom: Option<ResolvedAsset> },
}

/// An instruction to transfer `amount` units of `denom` to `to_address`.
#[derive(Clone, Debug, PartialEq, Eq)]
pub struct Payout {
    pub to_address: String,
    pub amount: u128,
    pub denom: String,
}

/// A payout as contracts see it.
pub struct PayoutView {
    pub to_address: Seq<char>,
    pub amount: u128,
    pub denom: Seq<char>,
}

impl View for Payout {
    type V = PayoutView;

    open spec fn view(&self) -> PayoutView {
        PayoutView { to_address: self.to_address@, amount: self.amount, denom: self.denom@ }
    }
}

/// The payouts of a vector, each by its view.
pub open spec fn payouts_view(payouts: Seq<Payout>) -> Seq<PayoutView> {
    payouts.map_values(|p: Payout| p@)
}

/// The sum of the amounts that a sequence of payouts transfers.
pub open spec fn paid_out(payouts: Seq<PayoutView>) -> int
    decreases payouts.len(),
{
    if payouts.len() == 0 {
        0
    } else {
        paid_out(payouts.drop_last()) + payouts.last().amount
    }
}

/// What a handled message did.
#[derive(Clone, Copy, Debug, PartialEq, Eq, Structural)]
pub enum Action {
    RequestMeeting,
    ReturnStake,
    FullSlash,
    PartialSlash,
    UpdateConfig,
}

/// One fact reported about a handled message.
#[derive(Clone, Debug, PartialEq, Eq)]
pub enum Attribute {
    MeetingStartTime(i64),
    MeetingEndTime(i64),
    PricePerMinute(u128),
    /// The symbolic name of the new currency unit.
    Denom(String),
}

/// A reported fact as contracts see it.
pub enum AttributeView {
    MeetingStartTime(i64),
    MeetingEndTime(i64),
    PricePerMinute(u128),
    Denom(Seq<char>),
}

impl View for Attribute {
    type V = AttributeView;

    open spec fn view(&self) -> AttributeView {
        match self {
            Attribute::MeetingStartTime(t) => AttributeView::MeetingStartTime(*t),
            Attribute::MeetingEndTime(t) => AttributeView::MeetingEndTime(*t),
            Attribute::PricePerMinute(p) => AttributeView::PricePerMinute(*p),
            Attribute::Denom(name) => AttributeView::Denom(name@),
        }
    }
}

/// The attributes of a vector, each by its view.
pub open spec fn attributes_view(attributes: Seq<Attribute>) -> Seq<AttributeView> {
    attributes.map_values(|a: Attribute| a@)
}

/// The observable outcome of a handled message: what was done, the facts
/// reported about it, and the transfers the host is to carry out, in order.
#[derive(Clone, Debug, PartialEq, Eq)]
pub struct Response {
    pub action: Action,
    pub attributes: Vec<Attribute>,
    pub messages: Vec<Payout>,
}

/// A response as contracts see it.
pub struct ResponseView {
    pub action: Action,
    pub attributes: Seq<AttributeView>,
    pub messages: Seq<PayoutView>,
}

impl View for Response {
    type V = ResponseView;

    open spec fn view(&self) -> ResponseView {
        ResponseView {
            action: self.action,
            attributes: attributes_view(self.attributes@),
            messages: payouts_view(self.messages@),
        }
    }
}

} // verus!
