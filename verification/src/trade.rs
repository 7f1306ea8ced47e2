//! The trade event and its decoder.
//!
//! A trade is read from one element of the feed's trade array. The element
//! must be an object with an identifier, a markup, a total value, a join
//! flag, a status and at least one item; the first item must name its
//! market entry and carry a variant with brand, name and colour. An element
//! that lacks any of these, or holds one under another type, is rejected as
//! a whole.

use crate::json::{items_view, optional_view, Json, JsonView};
use crate::text::starts_with;
use vstd::prelude::*;
use vstd::string::*;

verus! {

/// What the market name of a StatTrak item starts with.
pub const STATTRAK_MARKER: &'static str = "StatTrak\u{2122}";

/// The mathematical value of a [`Trade`].
pub struct TradeView {
    pub id: Seq<char>,
    pub markup_percent_bits: u64,
    pub total_value_bits: u64,
    pub can_join: bool,
    pub status: Seq<char>,
    pub market_name: Seq<char>,
    pub brand: Seq<char>,
    pub skin_name: Seq<char>,
    pub wear: Seq<char>,
    pub is_stattrak: bool,
}

/// One trade offered on the feed, with the first of its items.
///
/// The two amounts are doubles, held as their IEEE 754 binary64 bit
/// patterns.
#[derive(Clone, Debug, PartialEq)]
pub struct Trade {
    pub id: String,
    pub markup_percent_bits: u64,
    pub total_value_bits: u64,
    pub can_join: bool,
    pub status: String,
    pub market_name: String,
    pub brand: String,
    pub skin_name: String,
    pub wear: String,
    pub is_stattrak: bool,
}

impl View for Trade {
    type V = TradeView;

    open spec fn view(&self) -> TradeView {
        TradeView {
            id: self.id@,
            markup_percent_bits: self.markup_percent_bits,
            total_value_bits: self.total_value_bits,
            can_join: self.can_join,
            status: self.status@,
            market_name: self.market_name@,
            brand: self.brand@,
            skin_name: self.skin_name@,
            wear: self.wear@,
            is_stattrak: self.is_stattrak,
        }
    }
}

/// The values of a run of trades.
pub open spec fn trades_view(trades: Seq<Trade>) -> Seq<TradeView> {
    Seq::new(trades.len(), |i: int| trades[i]@)
}

/// Whether a market name is that of a StatTrak item.
pub open spec fn stattrak_name(market_name: Seq<char>) -> bool {
    STATTRAK_MARKER@.is_prefix_of(market_name)
}

/// The text of member `key` of `obj`.
pub open spec fn text_member(obj: JsonView, key: Seq<char>) -> Option<Seq<char>> {
    match obj.get(key) {
        Some(value) => value.as_str(),
        None => None,
    }
}

/// The double of member `key` of `obj`, as its bit pattern.
pub open spec fn number_member(obj: JsonView, key: Seq<char>) -> Option<u64> {
    match obj.get(key) {
        Some(value) => value.as_number(),
        None => None,
    }
}

/// The truth value of member `key` of `obj`.
pub open spec fn flag_member(obj: JsonView, key: Seq<char>) -> Option<bool> {
    match obj.get(key) {
        Some(value) => value.as_bool(),
        None => None,
    }
}

/// The first item of the trade element `elem`.
pub open spec fn first_item(elem: JsonView) -> Option<JsonView> {
    match elem.get("tradeItems"@) {
        Some(JsonView::Array(items)) => if items.len() > 0 {
            Some(items[0])
        } else {
            None
        },
        _ => None,
    }
}

/// The variant of the first item of the trade element `elem`.
pub open spec fn first_variant(elem: JsonView) -> Option<JsonView> {
    match first_item(elem) {
        Some(item) => item.get("itemVariant"@),
        None => None,
    }
}

/// Whether `elem` has all that a trade is read from.
pub open spec fn is_trade(elem: JsonView) -> bool {
    &&& text_member(elem, "id"@) is Some
    &&& number_member(elem, "markupPercent"@) is Some
    &&& number_member(elem, "totalValue"@) is Some
    &&& flag_member(elem, "canJoin"@) is Some
    &&& text_member(elem, "status"@) is Some
    &&& first_item(elem) is Some
    &&& text_member(first_item(elem)->0, "marketName"@) is Some
    &&& first_variant(elem) is Some
    &&& text_member(first_variant(elem)->0, "brand"@) is Some
    &&& text_member(first_variant(elem)->0, "name"@) is Some
    &&& text_member(first_variant(elem)->0, "color"@) is Some
}

/// The trade that the element `elem` stands for, where it stands for one.
pub open spec fn trade_of(elem: JsonView) -> Option<TradeView> {
    if is_trade(elem) {
        let item = first_item(elem)->0;
        let variant = first_variant(elem)->0;
        let market_name = text_member(item, "marketName"@)->0;
        Some(
            TradeView {
                id: text_member(elem, "id"@)->0,
                markup_percent_bits: number_member(elem, "markupPercent"@)->0,
                total_value_bits: number_member(elem, "totalValue"@)->0,
                can_join: flag_member(elem, "canJoin"@)->0,
                status: text_member(elem, "status"@)->0,
                market_name,
                brand: text_member(variant, "brand"@)->0,
                skin_name: text_member(variant, "name"@)->0,
                wear: text_member(variant, "color"@)->0,
                is_stattrak: stattrak_name(market_name),
            },
        )
    } else {
        None
    }
}

/// The trades that the elements `elems` stand for, in order, the rejected
/// ones left out.
pub open spec fn trades_of(elems: Seq<JsonView>) -> Seq<TradeView>
    decreases elems.len(),
{
    if elems.len() == 0 {
        Seq::empty()
    } else {
        match trade_of(elems.last()) {
            Some(trade) => trades_of(elems.drop_last()).push(trade),
            None => trades_of(elems.drop_last()),
        }
    }
}

/// The value of a trade that may be absent.
pub open spec fn optional_trade_view(trade: Option<Trade>) -> Option<TradeView> {
    match trade {
        Some(t) => Some(t@),
        None => None,
    }
}

/// Whether a market name is that of a StatTrak item: whether it starts with
/// the marker.
pub fn is_stattrak(market_name: &str) -> (yes: bool)
    ensures
        yes == stattrak_name(market_name@),
{
    starts_with(market_name, STATTRAK_MARKER)
}

fn text_of(obj: &Json, key: &str) -> (text: Option<String>)
    ensures
        match text {
            Some(s) => text_member(obj@, key@) == Some(s@),
            None => text_member(obj@, key@) is None,
        },
{
    match obj.get(key) {
        Some(value) => match value.as_str() {
            Some(s) => Some(String::from_str(s)),
            None => None,
        },
        None => None,
    }
}

fn number_of(obj: &Json, key: &str) -> (bits: Option<u64>)
    ensures
        bits == number_member(obj@, key@),
{
    match obj.get(key) {
        Some(value) => value.as_number(),
        None => None,
    }
}

fn flag_of(obj: &Json, key: &str) -> (flag: Option<bool>)
    ensures
        flag == flag_member(obj@, key@),
{
    match obj.get(key) {
        Some(value) => value.as_bool(),
        None => None,
    }
}

fn first_item_of(elem: &Json) -> (item: Option<&Json>)
    ensures
        match item {
            Some(found) => first_item(elem@) == Some(found@),
            None => first_item(elem@) is None,
        },
{
    match elem.get("tradeItems") {
        Some(value) => match value.as_array() {
            Some(items) => if items.len() > 0 {
                Some(&items[0])
            } else {
                None
            },
            None => None,
        },
        None => None,
    }
}

/// Decodes one element of the feed's trade array. The result is the trade
/// the element stands for, and `None` exactly when it stands for none.
pub fn parse_trade(val: &Json) -> (trade: Option<Trade>)
    ensures
        optional_trade_view(trade) == trade_of(val@),
{
    let id = match text_of(val, "id") {
        Some(s) => s,
        None => { return None; },
    };
    let markup_percent_bits: u64 = match number_of(val, "markupPercent") {
        Some(bits) => bits,
        None => { return None; },
    };
    let total_value_bits: u64 = match number_of(val, "totalValue") {
        Some(bits) => bits,
        None => { return None; },
    };
    let can_join = match flag_of(val, "canJoin") {
        Some(flag) => flag,
        None => { return None; },
    };
    let status = match text_of(val, "status") {
        Some(s) => s,
        None => { return None; },
    };
    let item = match first_item_of(val) {
        Some(found) => found,
        None => { return None; },
    };
    let market_name = match text_of(item, "marketName") {
        Some(s) => s,
        None => { return None; },
    };
    let variant = match item.get("itemVariant") {
        Some(found) => found,
        None => { return None; },
    };
    let brand = match text_of(variant, "brand") {
        Some(s) => s,
        None => { return None; },
    };
    let skin_name = match text_of(variant, "name") {
        Some(s) => s,
        None => { return None; },
    };
    let wear = match text_of(variant, "color") {
        Some(s) => s,
        None => { return None; },
    };
    let is_stattrak = is_stattrak(market_name.as_str());
    Some(
        Trade {
            id,
            markup_percent_bits,
            total_value_bits,
            can_join,
            status,
            market_name,
            brand,
            skin_name,
            wear,
            is_stattrak,
        },
    )
}

/// Decodes every element of a trade array, in order, and leaves out the
/// ones that stand for no trade.
pub fn parse_trades(elems: &Vec<Json>) -> (trades: Vec<Trade>)
    ensures
        trades_view(trades@) == trades_of(items_view(elems@)),
{
    let ghost all = items_view(elems@);
    let mut trades: Vec<Trade> = Vec::new();
    let mut i: usize = 0;
    assert(all.take(0) =~= Seq::empty());
    assert(trades_view(trades@) =~= Seq::empty());
    while i < elems.len()
        invariant
            i <= elems.len(),
            all == items_view(elems@),
            trades_view(trades@) == trades_of(all.take(i as int)),
        decreases elems.len() - i,
    {
        let ghost before = trades@;
        proof {
            assert(all.take(i + 1).drop_last() =~= all.take(i as int));
            assert(all.take(i + 1).last() == elems@[i as int]@);
        }
        match parse_trade(&elems[i]) {
            Some(trade) => {
                trades.push(trade);
                assert(trades_view(trades@) =~= trades_view(before).push(trade@));
            },
            None => {},
        }
        i += 1;
    }
    assert(all.take(i as int) =~= all);
    trades
}

/// The elements of the trade array that the payload of a `next` message
/// holds under `data`, `createTrades`, `trades`.
pub open spec fn feed_elements(payload: Option<JsonView>) -> Option<Seq<JsonView>> {
    match payload {
        Some(p) => match p.get("data"@) {
            Some(data) => match data.get("createTrades"@) {
                Some(created) => match created.get("trades"@) {
                    Some(trades) => trades.as_array(),
                    None => None,
                },
                None => None,
            },
            None => None,
        },
        None => None,
    }
}

/// The trades that the payload of a `next` message announces, in order.
pub open spec fn feed_trades(payload: Option<JsonView>) -> Seq<TradeView> {
    match feed_elements(payload) {
        Some(elems) => trades_of(elems),
        None => Seq::empty(),
    }
}

/// Decodes the payload of a `next` message: every element of its trade
/// array that stands for a trade, in order. A payload without that array
/// announces nothing.
pub fn trades_in(payload: &Option<Json>) -> (trades: Vec<Trade>)
    ensures
        trades_view(trades@) == feed_trades(optional_view(*payload)),
{
    let elems = match payload {
        Some(p) => match p.get("data") {
            Some(data) => match data.get("createTrades") {
                Some(created) => match created.get("trades") {
                    Some(trades) => trades.as_array(),
                    None => None,
                },
                None => None,
            },
            None => None,
        },
        None => None,
    };
    match elems {
        Some(items) => parse_trades(items),
        None => {
            let trades: Vec<Trade> = Vec::new();
            assert(trades_view(trades@) =~= Seq::empty());
            trades
        },
    }
}

/// An element that lacks one of the members `id`, `markupPercent`,
/// `totalValue`, `canJoin`, `status` and `tradeItems` is rejected, whatever
/// else it holds.
pub proof fn lemma_rejects_without_member(elem: JsonView, key: Seq<char>)
    requires
        key == "id"@ || key == "markupPercent"@ || key == "totalValue"@ || key == "canJoin"@ || key
            == "status"@ || key == "tradeItems"@,
        elem.get(key) is None,
    ensures
        trade_of(elem) is None,
{
}

/// An element whose item list is empty is rejected.
pub proof fn lemma_rejects_without_items(elem: JsonView)
    requires
        elem.get("tradeItems"@) == Some(JsonView::Array(Seq::empty())),
    ensures
        trade_of(elem) is None,
{
}

/// An element whose first item lacks `marketName` or `itemVariant` is
/// rejected.
pub proof fn lemma_rejects_without_item_member(elem: JsonView, key: Seq<char>)
    requires
        key == "marketName"@ || key == "itemVariant"@,
        first_item(elem) matches Some(item) ==> item.get(key) is None,
    ensures
        trade_of(elem) is None,
{
}

/// An element whose first item's variant lacks `brand`, `name` or `color`
/// is rejected.
pub proof fn lemma_rejects_without_variant_member(elem: JsonView, key: Seq<char>)
    requires
        key == "brand"@ || key == "name"@ || key == "color"@,
        first_variant(elem) matches Some(variant) ==> variant.get(key) is None,
    ensures
        trade_of(elem) is None,
{
}

/// A decoded trade is flagged StatTrak exactly when its market name starts
/// with the marker.
pub proof fn lemma_stattrak_flag(elem: JsonView)
    requires
        trade_of(elem) is Some,
    ensures
        trade_of(elem)->0.is_stattrak == STATTRAK_MARKER@.is_prefix_of(trade_of(elem)->0.market_name),
{
}

} // verus!
