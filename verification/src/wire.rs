//! The messages a client sends.
//!
//! Each message is an envelope, written as JSON text with its members in
//! alphabetical order. The subscription is fixed: one document, one
//! operation, no filter, so that the server streams the whole public feed.

use vstd::prelude::*;
use vstd::string::*;

verus! {

/// The identifier of the one subscription of a session.
pub const SUBSCRIPTION_ID: &'static str = "1";

/// The operation that the subscription document defines.
pub const OPERATION_NAME: &'static str = "OnCreateTrades";

/// The subscription document.
pub const SUBSCRIPTION_QUERY: &'static str = "subscription OnCreateTrades($userId: ID, $marketName: String, $maxMarkupPercent: Float, $maxPrice: UnsignedFloat, $minPrice: UnsignedFloat, $maxAvgPaintWear: UnsignedFloat, $minAvgPaintWear: UnsignedFloat, $activeSince: SequelizeDate, $activeUntil: SequelizeDate, $trackingTypeGroup: TradeTrackingTypeGroup, $categoryIds: [ID!], $stickersAppliedCount: Int, $rarities: [String!]) {\n  createTrades(\n    userId: $userId\n    marketName: $marketName\n    maxMarkupPercent: $maxMarkupPercent\n    maxPrice: $maxPrice\n    minPrice: $minPrice\n    maxAvgPaintWear: $maxAvgPaintWear\n    minAvgPaintWear: $minAvgPaintWear\n    activeSince: $activeSince\n    activeUntil: $activeUntil\n    trackingTypeGroup: $trackingTypeGroup\n    categoryIds: $categoryIds\n    stickersAppliedCount: $stickersAppliedCount\n    rarities: $rarities\n  ) {\n    trades {\n      ...SimpleTrade\n      __typename\n    }\n    __typename\n  }\n}\n\nfragment SimpleTrade on Trade {\n  id\n  depositorLastActiveAt\n  markupPercent\n  totalValue\n  avgPaintWear\n  hasStickers\n  tradeItems {\n    ...SimpleTradeItem\n    __typename\n  }\n  trackingType\n  avgPaintWearRange {\n    min\n    max\n    __typename\n  }\n  canJoinAfter\n  depositor {\n    id\n    steamDisplayName\n    steamId\n    __typename\n  }\n  suspectedTraderCanJoinAfter\n  status\n  steamAppName\n  customValue\n  createdAt\n  updatedAt\n  canJoin\n  expiresAt\n  withdrawer {\n    id\n    steamId\n    steamDisplayName\n    steamLevel\n    avatar\n    steamRegistrationDate\n    name\n    __typename\n  }\n  joinedAt\n  cancelReason\n  withdrawerSteamTradeUrl\n  __typename\n}\n\nfragment SimpleTradeItem on TradeItem {\n  id\n  marketName\n  markupPercent\n  customValue\n  steamExternalAssetId\n  itemVariant {\n    ...SimpleTradeItemVariant\n    __typename\n  }\n  stickers {\n    ...SimpleTradeItemSticker\n    __typename\n  }\n  value\n  patternPercentage\n  __typename\n}\n\nfragment SimpleTradeItemVariant on ItemVariant {\n  brand\n  color\n  name\n  iconUrl\n  rarity\n  depositable\n  itemId\n  id\n  value\n  currency\n  externalId\n  __typename\n}\n\nfragment SimpleTradeItemSticker on TradeItemSticker {\n  imageUrl\n  id\n  name\n  color\n  wear\n  brand\n  __typename\n}";

/// The JSON string literal that stands for a text: the text between double
/// quotes, with every character escaped that JSON wants escaped.
pub uninterp spec fn json_string_text(text: Seq<char>) -> Seq<char>;

/// Writes a text as a JSON string literal, by the `Display` of a
/// `serde_json::Value::String`. The contract only gives the outcome a name:
/// the same text always yields the same literal.
#[verifier::external_body]
fn json_string(text: &str) -> (literal: String)
    ensures
        literal@ == json_string_text(text@),
{
    serde_json::Value::from(text).to_string()
}

/// The mathematical value of a [`ClientMessage`].
pub enum ClientMessageView {
    ConnectionInit { token: Seq<char> },
    Subscribe,
    Pong,
}

impl ClientMessageView {
    /// The text that goes on the wire.
    pub open spec fn text(self) -> Seq<char> {
        match self {
            ClientMessageView::ConnectionInit { token } => "{\"payload\":{\"token\":"@
                + json_string_text(token) + "},\"type\":\"connection_init\"}"@,
            ClientMessageView::Subscribe => "{\"id\":"@
                + json_string_text(SUBSCRIPTION_ID@)
                + ",\"payload\":{\"extensions\":{},\"operationName\":"@
                + json_string_text(OPERATION_NAME@)
                + ",\"query\":"@
                + json_string_text(SUBSCRIPTION_QUERY@)
                + ",\"variables\":{\"userId\":null}},\"type\":\"subscribe\"}"@,
            ClientMessageView::Pong => "{\"type\":\"pong\"}"@,
        }
    }
}

/// A message from the client to the server.
#[derive(Clone, Debug, PartialEq, Eq)]
pub enum ClientMessage {
    /// Opens the session and carries the authentication token.
    ConnectionInit { token: String },
    /// Asks for the feed.
    Subscribe,
    /// Answers a `ping`.
    Pong,
}

impl View for ClientMessage {
    type V = ClientMessageView;

    open spec fn view(&self) -> ClientMessageView {
        match self {
            ClientMessage::ConnectionInit { token } => ClientMessageView::ConnectionInit {
                token: token@,
            },
            ClientMessage::Subscribe => ClientMessageView::Subscribe,
            ClientMessage::Pong => ClientMessageView::Pong,
        }
    }
}

impl ClientMessage {
    /// The text that goes on the wire.
    pub fn to_text(&self) -> (text: String)
        ensures
            text@ == self@.text(),
    {
        match self {
            ClientMessage::ConnectionInit { token } => {
                let mut text = String::from_str("{\"payload\":{\"token\":");
                text.append(json_string(token.as_str()).as_str());
                text.append("},\"type\":\"connection_init\"}");
                text
            },
            ClientMessage::Subscribe => {
                let mut text = String::from_str("{\"id\":");
                text.append(json_string(SUBSCRIPTION_ID).as_str());
                text.append(",\"payload\":{\"extensions\":{},\"operationName\":");
                text.append(json_string(OPERATION_NAME).as_str());
                text.append(",\"query\":");
                text.append(json_string(SUBSCRIPTION_QUERY).as_str());
                text.append(",\"variables\":{\"userId\":null}},\"type\":\"subscribe\"}");
                text
            },
            ClientMessage::Pong => String::from_str("{\"type\":\"pong\"}"),
        }
    }
}

} // verus!
