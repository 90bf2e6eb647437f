//! Candidate test and decoding of one log line into a typed domain event.
//!
//! A log line is a candidate event payload when it starts with the event
//! prefix (the prefix is empty: every log line is a candidate). The payload is
//! a JSON document `{"event": <kind>, "data": {...}}` over four kinds:
//! `new_market`, `new_order`, `new_fill` and `new_cancel`. Identifiers are
//! byte arrays; prices, quantities and fees are decimal texts, never
//! binary floating point; ranks are numbers of at most nineteen digits.

use vstd::prelude::*;
use crate::json::{
    Json, json_of, parse_json, obj_get_spec, obj_get, json_bytes_spec, json_bytes,
    parse_u64_spec, parse_u64_text,
};

verus! {

/// The side of an order or of a fill's taker.
#[derive(Clone, Copy, Debug, PartialEq, Eq, Structural)]
pub enum Side {
    Buy,
    Sell,
}

/// The execution discipline of an order.
#[derive(Clone, Copy, Debug, PartialEq, Eq, Structural)]
pub enum OrderType {
    Limit,
    ImmediateOrCancel,
    PostOnly,
    FillOrKill,
    Market,
}

/// A new market listing.
#[derive(Debug)]
pub struct NewMarketData {
    pub market_id: Vec<u8>,
    pub base_token: String,
    pub quote_token: String,
}

pub ghost struct NewMarketDataV {
    pub market_id: Seq<u8>,
    pub base_token: Seq<char>,
    pub quote_token: Seq<char>,
}

impl View for NewMarketData {
    type V = NewMarketDataV;

    open spec fn view(&self) -> NewMarketDataV {
        NewMarketDataV {
            market_id: self.market_id@,
            base_token: self.base_token@,
            quote_token: self.quote_token@,
        }
    }
}

/// A newly placed order. `price_rank` is `None` where the order did not post
/// to the book.
#[derive(Debug)]
pub struct NewOrderData {
    pub account_id: String,
    pub order_id: Vec<u8>,
    pub market_id: Vec<u8>,
    pub limit_price: String,
    pub quantity: String,
    pub side: Side,
    pub order_type: OrderType,
    pub taker_fee: String,
    pub referrer_id: Option<String>,
    pub referrer_rebate: String,
    pub is_swap: bool,
    pub price_rank: Option<u64>,
}

pub ghost struct NewOrderDataV {
    pub account_id: Seq<char>,
    pub order_id: Seq<u8>,
    pub market_id: Seq<u8>,
    pub limit_price: Seq<char>,
    pub quantity: Seq<char>,
    pub side: Side,
    pub order_type: OrderType,
    pub taker_fee: Seq<char>,
    pub referrer_id: Option<Seq<char>>,
    pub referrer_rebate: Seq<char>,
    pub is_swap: bool,
    pub price_rank: Option<u64>,
}

impl View for NewOrderData {
    type V = NewOrderDataV;

    open spec fn view(&self) -> NewOrderDataV {
        NewOrderDataV {
            account_id: self.account_id@,
            order_id: self.order_id@,
            market_id: self.market_id@,
            limit_price: self.limit_price@,
            quantity: self.quantity@,
            side: self.side,
            order_type: self.order_type,
            taker_fee: self.taker_fee@,
            referrer_id: match self.referrer_id {
                Some(ref r) => Some(r@),
                None => None,
            },
            referrer_rebate: self.referrer_rebate@,
            is_swap: self.is_swap,
            price_rank: self.price_rank,
        }
    }
}

/// One maker order filled against the taker order.
#[derive(Debug)]
pub struct FillData {
    pub maker_order_id: Vec<u8>,
    pub fill_qty: String,
    pub fill_price: String,
    pub quote_qty: String,
    pub maker_rebate: String,
    pub side: Side,
    pub taker_account_id: String,
    pub maker_account_id: String,
    pub maker_price_rank: u64,
}

pub ghost struct FillDataV {
    pub maker_order_id: Seq<u8>,
    pub fill_qty: Seq<char>,
    pub fill_price: Seq<char>,
    pub quote_qty: Seq<char>,
    pub maker_rebate: Seq<char>,
    pub side: Side,
    pub taker_account_id: Seq<char>,
    pub maker_account_id: Seq<char>,
    pub maker_price_rank: u64,
}

impl View for FillData {
    type V = FillDataV;

    open spec fn view(&self) -> FillDataV {
        FillDataV {
            maker_order_id: self.maker_order_id@,
            fill_qty: self.fill_qty@,
            fill_price: self.fill_price@,
            quote_qty: self.quote_qty@,
            maker_rebate: self.maker_rebate@,
            side: self.side,
            taker_account_id: self.taker_account_id@,
            maker_account_id: self.maker_account_id@,
            maker_price_rank: self.maker_price_rank,
        }
    }
}

/// A taker order's fills, batched into one event.
#[derive(Debug)]
pub struct NewFillData {
    pub market_id: Vec<u8>,
    pub order_id: Vec<u8>,
    pub fills: Vec<FillData>,
}

pub ghost struct NewFillDataV {
    pub market_id: Seq<u8>,
    pub order_id: Seq<u8>,
    pub fills: Seq<FillDataV>,
}

impl View for NewFillData {
    type V = NewFillDataV;

    open spec fn view(&self) -> NewFillDataV {
        NewFillDataV {
            market_id: self.market_id@,
            order_id: self.order_id@,
            fills: self.fills@.map_values(|f: FillData| f@),
        }
    }
}

/// One cancelled order.
#[derive(Debug)]
pub struct CancelData {
    pub order_id: Vec<u8>,
    pub refund_amount: String,
    pub refund_token: String,
    pub cancelled_qty: String,
    pub price_rank: u64,
}

pub ghost struct CancelDataV {
    pub order_id: Seq<u8>,
    pub refund_amount: Seq<char>,
    pub refund_token: Seq<char>,
    pub cancelled_qty: Seq<char>,
    pub price_rank: u64,
}

impl View for CancelData {
    type V = CancelDataV;

    open spec fn view(&self) -> CancelDataV {
        CancelDataV {
            order_id: self.order_id@,
            refund_amount: self.refund_amount@,
            refund_token: self.refund_token@,
            cancelled_qty: self.cancelled_qty@,
            price_rank: self.price_rank,
        }
    }
}

/// Cancelled orders of one market, batched into one event.
#[derive(Debug)]
pub struct NewCancelData {
    pub market_id: Vec<u8>,
    pub cancels: Vec<CancelData>,
}

pub ghost struct NewCancelDataV {
    pub market_id: Seq<u8>,
    pub cancels: Seq<CancelDataV>,
}

impl View for NewCancelData {
    type V = NewCancelDataV;

    open spec fn view(&self) -> NewCancelDataV {
        NewCancelDataV {
            market_id: self.market_id@,
            cancels: self.cancels@.map_values(|c: CancelData| c@),
        }
    }
}

/// A domain event, decoded from one log line. Produced transiently; only its
/// mapped storage records are ever persisted.
#[derive(Debug)]
pub enum DexEvent {
    NewMarket(NewMarketData),
    Order(NewOrderData),
    Fill(NewFillData),
    Cancel(NewCancelData),
}

pub ghost enum DexEventV {
    NewMarket(NewMarketDataV),
    Order(NewOrderDataV),
    Fill(NewFillDataV),
    Cancel(NewCancelDataV),
}

impl View for DexEvent {
    type V = DexEventV;

    open spec fn view(&self) -> DexEventV {
        match self {
            DexEvent::NewMarket(m) => DexEventV::NewMarket(m@),
            DexEvent::Order(o) => DexEventV::Order(o@),
            DexEvent::Fill(f) => DexEventV::Fill(f@),
            DexEvent::Cancel(c) => DexEventV::Cancel(c@),
        }
    }
}

/// Why a candidate log line decoded to no event.
#[derive(Clone, Copy, Debug, PartialEq, Eq, Structural)]
pub enum DecodeError {
    /// The payload is not a JSON document.
    InvalidJson,
    /// The payload is a JSON document, but no well-formed event document.
    MalformedEvent,
}

// ---------------------------------------------------------------------------
// Field readers over an object's fields.
// ---------------------------------------------------------------------------

/// A text field's value.
pub open spec fn get_str_spec(d: Seq<(String, Json)>, key: Seq<char>) -> Option<Seq<char>> {
    match obj_get_spec(d, key) {
        Some(Json::Str(s)) => Some(s@),
        _ => None,
    }
}

fn get_str<'a>(d: &'a Vec<(String, Json)>, key: &String) -> (r: Option<&'a String>)
    ensures
        match r {
            Some(s) => get_str_spec(d@, key@) == Some(s@),
            None => get_str_spec(d@, key@) is None,
        },
{
    match obj_get(d, key) {
        Some(Json::Str(s)) => Some(s),
        _ => None,
    }
}

/// A byte-array field's value.
pub open spec fn get_bytes_spec(d: Seq<(String, Json)>, key: Seq<char>) -> Option<Seq<u8>> {
    match obj_get_spec(d, key) {
        Some(Json::Arr(a)) => json_bytes_spec(a@),
        _ => None,
    }
}

fn get_bytes(d: &Vec<(String, Json)>, key: &String) -> (r: Option<Vec<u8>>)
    ensures
        match r {
            Some(v) => get_bytes_spec(d@, key@) == Some(v@),
            None => get_bytes_spec(d@, key@) is None,
        },
{
    match obj_get(d, key) {
        Some(Json::Arr(a)) => json_bytes(a),
        _ => None,
    }
}

/// A numeric field's value.
pub open spec fn get_u64_spec(d: Seq<(String, Json)>, key: Seq<char>) -> Option<u64> {
    match obj_get_spec(d, key) {
        Some(Json::Num(t)) => parse_u64_spec(t@),
        _ => None,
    }
}

fn get_u64(d: &Vec<(String, Json)>, key: &String) -> (r: Option<u64>)
    ensures
        r == get_u64_spec(d@, key@),
{
    match obj_get(d, key) {
        Some(Json::Num(t)) => parse_u64_text(t.as_str()),
        _ => None,
    }
}

/// A boolean field's value.
pub open spec fn get_bool_spec(d: Seq<(String, Json)>, key: Seq<char>) -> Option<bool> {
    match obj_get_spec(d, key) {
        Some(Json::Bool(b)) => Some(b),
        _ => None,
    }
}

fn get_bool(d: &Vec<(String, Json)>, key: &String) -> (r: Option<bool>)
    ensures
        r == get_bool_spec(d@, key@),
{
    match obj_get(d, key) {
        Some(Json::Bool(b)) => Some(*b),
        _ => None,
    }
}

/// An optional text field: absent or null means none was given.
pub open spec fn get_opt_str_spec(d: Seq<(String, Json)>, key: Seq<char>) -> Option<
    Option<Seq<char>>,
> {
    match obj_get_spec(d, key) {
        Some(Json::Str(s)) => Some(Some(s@)),
        Some(Json::Null) => Some(None),
        Some(_) => None,
        None => Some(None),
    }
}

fn get_opt_str(d: &Vec<(String, Json)>, key: &String) -> (r: Option<Option<String>>)
    ensures
        match r {
            Some(Some(s)) => get_opt_str_spec(d@, key@) == Some(Some(s@)),
            Some(None) => get_opt_str_spec(d@, key@) == Some(None::<Seq<char>>),
            None => get_opt_str_spec(d@, key@) is None,
        },
{
    match obj_get(d, key) {
        Some(Json::Str(s)) => Some(Some(s.clone())),
        Some(Json::Null) => Some(None),
        Some(_) => None,
        None => Some(None),
    }
}

/// An optional numeric field: absent or null means none was given.
pub open spec fn get_opt_u64_spec(d: Seq<(String, Json)>, key: Seq<char>) -> Option<Option<u64>> {
    match obj_get_spec(d, key) {
        Some(Json::Num(t)) => match parse_u64_spec(t@) {
            Some(v) => Some(Some(v)),
            None => None,
        },
        Some(Json::Null) => Some(None),
        Some(_) => None,
        None => Some(None),
    }
}

fn get_opt_u64(d: &Vec<(String, Json)>, key: &String) -> (r: Option<Option<u64>>)
    ensures
        r == get_opt_u64_spec(d@, key@),
{
    match obj_get(d, key) {
        Some(Json::Num(t)) => match parse_u64_text(t.as_str()) {
            Some(v) => Some(Some(v)),
            None => None,
        },
        Some(Json::Null) => Some(None),
        Some(_) => None,
        None => Some(None),
    }
}

/// A side, written `buy` or `sell`.
pub open spec fn side_of_text(s: Seq<char>) -> Option<Side> {
    if s == "buy"@ {
        Some(Side::Buy)
    } else if s == "sell"@ {
        Some(Side::Sell)
    } else {
        None
    }
}

pub open spec fn get_side_spec(d: Seq<(String, Json)>, key: Seq<char>) -> Option<Side> {
    match get_str_spec(d, key) {
        Some(s) => side_of_text(s),
        None => None,
    }
}

fn get_side(d: &Vec<(String, Json)>, key: &String) -> (r: Option<Side>)
    ensures
        r == get_side_spec(d@, key@),
{
    match get_str(d, key) {
        Some(s) => {
            if *s == "buy".to_owned() {
                Some(Side::Buy)
            } else if *s == "sell".to_owned() {
                Some(Side::Sell)
            } else {
                None
            }
        },
        None => None,
    }
}

/// An order type, written as its storage text.
pub open spec fn order_type_of_text(s: Seq<char>) -> Option<OrderType> {
    if s == "limit"@ {
        Some(OrderType::Limit)
    } else if s == "ioc"@ {
        Some(OrderType::ImmediateOrCancel)
    } else if s == "postOnly"@ {
        Some(OrderType::PostOnly)
    } else if s == "fillOrKill"@ {
        Some(OrderType::FillOrKill)
    } else if s == "market"@ {
        Some(OrderType::Market)
    } else {
        None
    }
}

pub open spec fn get_order_type_spec(d: Seq<(String, Json)>, key: Seq<char>) -> Option<OrderType> {
    match get_str_spec(d, key) {
        Some(s) => order_type_of_text(s),
        None => None,
    }
}

fn get_order_type(d: &Vec<(String, Json)>, key: &String) -> (r: Option<OrderType>)
    ensures
        r == get_order_type_spec(d@, key@),
{
    match get_str(d, key) {
        Some(s) => {
            if *s == "limit".to_owned() {
                Some(OrderType::Limit)
            } else if *s == "ioc".to_owned() {
                Some(OrderType::ImmediateOrCancel)
            } else if *s == "postOnly".to_owned() {
                Some(OrderType::PostOnly)
            } else if *s == "fillOrKill".to_owned() {
                Some(OrderType::FillOrKill)
            } else if *s == "market".to_owned() {
                Some(OrderType::Market)
            } else {
                None
            }
        },
        None => None,
    }
}

// ---------------------------------------------------------------------------
// The four variants.
// ---------------------------------------------------------------------------

pub open spec fn extract_market_spec(d: Seq<(String, Json)>) -> Option<NewMarketDataV> {
    if get_bytes_spec(d, "market_id"@) is Some && get_str_spec(d, "base_token"@) is Some
        && get_str_spec(d, "quote_token"@) is Some {
        Some(
            NewMarketDataV {
                market_id: get_bytes_spec(d, "market_id"@).unwrap(),
                base_token: get_str_spec(d, "base_token"@).unwrap(),
                quote_token: get_str_spec(d, "quote_token"@).unwrap(),
            },
        )
    } else {
        None
    }
}

fn extract_market(d: &Vec<(String, Json)>) -> (r: Option<NewMarketData>)
    ensures
        match r {
            Some(e) => extract_market_spec(d@) == Some(e@),
            None => extract_market_spec(d@) is None,
        },
{
    let market_id = match get_bytes(d, &"market_id".to_owned()) {
        Some(b) => b,
        None => {
            return None;
        },
    };
    let base_token = match get_str(d, &"base_token".to_owned()) {
        Some(s) => s.clone(),
        None => {
            return None;
        },
    };
    let quote_token = match get_str(d, &"quote_token".to_owned()) {
        Some(s) => s.clone(),
        None => {
            return None;
        },
    };
    Some(NewMarketData { market_id, base_token, quote_token })
}

pub open spec fn extract_order_spec(d: Seq<(String, Json)>) -> Option<NewOrderDataV> {
    if get_str_spec(d, "account_id"@) is Some && get_bytes_spec(d, "order_id"@) is Some
        && get_bytes_spec(d, "market_id"@) is Some && get_str_spec(d, "limit_price"@) is Some
        && get_str_spec(d, "quantity"@) is Some && get_side_spec(d, "side"@) is Some
        && get_order_type_spec(d, "order_type"@) is Some && get_str_spec(d, "taker_fee"@) is Some
        && get_opt_str_spec(d, "referrer_id"@) is Some && get_str_spec(
        d,
        "referrer_rebate"@,
    ) is Some && get_bool_spec(d, "is_swap"@) is Some && get_opt_u64_spec(
        d,
        "price_rank"@,
    ) is Some {
        Some(
            NewOrderDataV {
                account_id: get_str_spec(d, "account_id"@).unwrap(),
                order_id: get_bytes_spec(d, "order_id"@).unwrap(),
                market_id: get_bytes_spec(d, "market_id"@).unwrap(),
                limit_price: get_str_spec(d, "limit_price"@).unwrap(),
                quantity: get_str_spec(d, "quantity"@).unwrap(),
                side: get_side_spec(d, "side"@).unwrap(),
                order_type: get_order_type_spec(d, "order_type"@).unwrap(),
                taker_fee: get_str_spec(d, "taker_fee"@).unwrap(),
                referrer_id: get_opt_str_spec(d, "referrer_id"@).unwrap(),
                referrer_rebate: get_str_spec(d, "referrer_rebate"@).unwrap(),
                is_swap: get_bool_spec(d, "is_swap"@).unwrap(),
                price_rank: get_opt_u64_spec(d, "price_rank"@).unwrap(),
            },
        )
    } else {
        None
    }
}

fn extract_order(d: &Vec<(String, Json)>) -> (r: Option<NewOrderData>)
    ensures
        match r {
            Some(e) => extract_order_spec(d@) == Some(e@),
            None => extract_order_spec(d@) is None,
        },
{
    let account_id = match get_str(d, &"account_id".to_owned()) {
        Some(s) => s.clone(),
        None => {
            return None;
        },
    };
    let order_id = match get_bytes(d, &"order_id".to_owned()) {
        Some(b) => b,
        None => {
            return None;
        },
    };
    let market_id = match get_bytes(d, &"market_id".to_owned()) {
        Some(b) => b,
        None => {
            return None;
        },
    };
    let limit_price = match get_str(d, &"limit_price".to_owned()) {
        Some(s) => s.clone(),
        None => {
            return None;
        },
    };
    let quantity = match get_str(d, &"quantity".to_owned()) {
        Some(s) => s.clone(),
        None => {
            return None;
        },
    };
    let side = match get_side(d, &"side".to_owned()) {
        Some(s) => s,
        None => {
            return None;
        },
    };
    let order_type = match get_order_type(d, &"order_type".to_owned()) {
        Some(t) => t,
        None => {
            return None;
        },
    };
    let taker_fee = match get_str(d, &"taker_fee".to_owned()) {
        Some(s) => s.clone(),
        None => {
            return None;
        },
    };
    let referrer_id = match get_opt_str(d, &"referrer_id".to_owned()) {
        Some(o) => o,
        None => {
            return None;
        },
    };
    let referrer_rebate = match get_str(d, &"referrer_rebate".to_owned()) {
        Some(s) => s.clone(),
        None => {
            return None;
        },
    };
    let is_swap = match get_bool(d, &"is_swap".to_owned()) {
        Some(b) => b,
        None => {
            return None;
        },
    };
    let price_rank = match get_opt_u64(d, &"price_rank".to_owned()) {
        Some(o) => o,
        None => {
            return None;
        },
    };
    Some(
        NewOrderData {
            account_id,
            order_id,
            market_id,
            limit_price,
            quantity,
            side,
            order_type,
            taker_fee,
            referrer_id,
            referrer_rebate,
            is_swap,
            price_rank,
        },
    )
}

pub open spec fn extract_fill_spec(j: Json) -> Option<FillDataV> {
    match j {
        Json::Obj(f) => {
            let d = f@;
            if get_bytes_spec(d, "maker_order_id"@) is Some && get_str_spec(
                d,
                "fill_qty"@,
            ) is Some && get_str_spec(d, "fill_price"@) is Some && get_str_spec(
                d,
                "quote_qty"@,
            ) is Some && get_str_spec(d, "maker_rebate"@) is Some && get_side_spec(
                d,
                "side"@,
            ) is Some && get_str_spec(d, "taker_account_id"@) is Some && get_str_spec(
                d,
                "maker_account_id"@,
            ) is Some && get_u64_spec(d, "maker_price_rank"@) is Some {
                Some(
                    FillDataV {
                        maker_order_id: get_bytes_spec(d, "maker_order_id"@).unwrap(),
                        fill_qty: get_str_spec(d, "fill_qty"@).unwrap(),
                        fill_price: get_str_spec(d, "fill_price"@).unwrap(),
                        quote_qty: get_str_spec(d, "quote_qty"@).unwrap(),
                        maker_rebate: get_str_spec(d, "maker_rebate"@).unwrap(),
                        side: get_side_spec(d, "side"@).unwrap(),
                        taker_account_id: get_str_spec(d, "taker_account_id"@).unwrap(),
                        maker_account_id: get_str_spec(d, "maker_account_id"@).unwrap(),
                        maker_price_rank: get_u64_spec(d, "maker_price_rank"@).unwrap(),
                    },
                )
            } else {
                None
            }
        },
        _ => None,
    }
}

fn extract_fill(j: &Json) -> (r: Option<FillData>)
    ensures
        match r {
            Some(e) => extract_fill_spec(*j) == Some(e@),
            None => extract_fill_spec(*j) is None,
        },
{
    let d = match j {
        Json::Obj(f) => f,
        _ => {
            return None;
        },
    };
    let maker_order_id = match get_bytes(d, &"maker_order_id".to_owned()) {
        Some(b) => b,
        None => {
            return None;
        },
    };
    let fill_qty = match get_str(d, &"fill_qty".to_owned()) {
        Some(s) => s.clone(),
        None => {
            return None;
        },
    };
    let fill_price = match get_str(d, &"fill_price".to_owned()) {
        Some(s) => s.clone(),
        None => {
            return None;
        },
    };
    let quote_qty = match get_str(d, &"quote_qty".to_owned()) {
        Some(s) => s.clone(),
        None => {
            return None;
        },
    };
    let maker_rebate = match get_str(d, &"maker_rebate".to_owned()) {
        Some(s) => s.clone(),
        None => {
            return None;
        },
    };
    let side = match get_side(d, &"side".to_owned()) {
        Some(s) => s,
        None => {
            return None;
        },
    };
    let taker_account_id = match get_str(d, &"taker_account_id".to_owned()) {
        Some(s) => s.clone(),
        None => {
            return None;
        },
    };
    let maker_account_id = match get_str(d, &"maker_account_id".to_owned()) {
        Some(s) => s.clone(),
        None => {
            return None;
        },
    };
    let maker_price_rank = match get_u64(d, &"maker_price_rank".to_owned()) {
        Some(v) => v,
        None => {
            return None;
        },
    };
    Some(
        FillData {
            maker_order_id,
            fill_qty,
            fill_price,
            quote_qty,
            maker_rebate,
            side,
            taker_account_id,
            maker_account_id,
            maker_price_rank,
        },
    )
}

pub open spec fn extract_fills_spec(a: Seq<Json>) -> Option<Seq<FillDataV>>
    decreases a.len(),
{
    if a.len() == 0 {
        Some(Seq::<FillDataV>::empty())
    } else {
        match extract_fills_spec(a.drop_last()) {
            Some(fs) => match extract_fill_spec(a.last()) {
                Some(f) => Some(fs.push(f)),
                None => None,
            },
            None => None,
        }
    }
}

proof fn lemma_extract_fills_none(a: Seq<Json>, i: int)
    requires
        0 <= i < a.len(),
        extract_fill_spec(a[i]) is None,
    ensures
        extract_fills_spec(a) is None,
    decreases a.len(),
{
    if i < a.len() - 1 {
        assert(a.drop_last()[i] == a[i]);
        lemma_extract_fills_none(a.drop_last(), i);
    }
}

fn extract_fills(a: &Vec<Json>) -> (r: Option<Vec<FillData>>)
    ensures
        match r {
            Some(v) => extract_fills_spec(a@) == Some(v@.map_values(|f: FillData| f@)),
            None => extract_fills_spec(a@) is None,
        },
{
    let mut out: Vec<FillData> = Vec::new();
    let mut i: usize = 0;
    proof {
        assert(out@.map_values(|f: FillData| f@) =~= Seq::<FillDataV>::empty());
    }
    while i < a.len()
        invariant
            0 <= i <= a@.len(),
            extract_fills_spec(a@.take(i as int)) == Some(out@.map_values(|f: FillData| f@)),
        decreases a@.len() - i,
    {
        let f = match extract_fill(&a[i]) {
            Some(f) => f,
            None => {
                proof {
                    lemma_extract_fills_none(a@, i as int);
                }
                return None;
            },
        };
        let ghost prev = out@;
        out.push(f);
        i += 1;
        proof {
            let t = a@.take(i as int);
            assert(t.drop_last() =~= a@.take(i as int - 1));
            assert(t.last() == a@[i as int - 1]);
            assert(out@.map_values(|f: FillData| f@) =~= prev.map_values(|f: FillData| f@).push(
                out@.last()@,
            ));
        }
    }
    proof {
        assert(a@.take(a@.len() as int) =~= a@);
    }
    Some(out)
}

pub open spec fn extract_new_fill_spec(d: Seq<(String, Json)>) -> Option<NewFillDataV> {
    if get_bytes_spec(d, "market_id"@) is Some && get_bytes_spec(d, "order_id"@) is Some {
        match obj_get_spec(d, "fills"@) {
            Some(Json::Arr(a)) => match extract_fills_spec(a@) {
                Some(fs) => Some(
                    NewFillDataV {
                        market_id: get_bytes_spec(d, "market_id"@).unwrap(),
                        order_id: get_bytes_spec(d, "order_id"@).unwrap(),
                        fills: fs,
                    },
                ),
                None => None,
            },
            _ => None,
        }
    } else {
        None
    }
}

fn extract_new_fill(d: &Vec<(String, Json)>) -> (r: Option<NewFillData>)
    ensures
        match r {
            Some(e) => extract_new_fill_spec(d@) == Some(e@),
            None => extract_new_fill_spec(d@) is None,
        },
{
    let market_id = match get_bytes(d, &"market_id".to_owned()) {
        Some(b) => b,
        None => {
            return None;
        },
    };
    let order_id = match get_bytes(d, &"order_id".to_owned()) {
        Some(b) => b,
        None => {
            return None;
        },
    };
    let fills = match obj_get(d, &"fills".to_owned()) {
        Some(Json::Arr(a)) => match extract_fills(a) {
            Some(v) => v,
            None => {
                return None;
            },
        },
        _ => {
            return None;
        },
    };
    Some(NewFillData { market_id, order_id, fills })
}

pub open spec fn extract_cancel_spec(j: Json) -> Option<CancelDataV> {
    match j {
        Json::Obj(f) => {
            let d = f@;
            if get_bytes_spec(d, "order_id"@) is Some && get_str_spec(
                d,
                "refund_amount"@,
            ) is Some && get_str_spec(d, "refund_token"@) is Some && get_str_spec(
                d,
                "cancelled_qty"@,
            ) is Some && get_u64_spec(d, "price_rank"@) is Some {
                Some(
                    CancelDataV {
                        order_id: get_bytes_spec(d, "order_id"@).unwrap(),
                        refund_amount: get_str_spec(d, "refund_amount"@).unwrap(),
                        refund_token: get_str_spec(d, "refund_token"@).unwrap(),
                        cancelled_qty: get_str_spec(d, "cancelled_qty"@).unwrap(),
                        price_rank: get_u64_spec(d, "price_rank"@).unwrap(),
                    },
                )
            } else {
                None
            }
        },
        _ => None,
    }
}

fn extract_cancel(j: &Json) -> (r: Option<CancelData>)
    ensures
        match r {
            Some(e) => extract_cancel_spec(*j) == Some(e@),
            None => extract_cancel_spec(*j) is None,
        },
{
    let d = match j {
        Json::Obj(f) => f,
        _ => {
            return None;
        },
    };
    let order_id = match get_bytes(d, &"order_id".to_owned()) {
        Some(b) => b,
        None => {
            return None;
        },
    };
    let refund_amount = match get_str(d, &"refund_amount".to_owned()) {
        Some(s) => s.clone(),
        None => {
            return None;
        },
    };
    let refund_token = match get_str(d, &"refund_token".to_owned()) {
        Some(s) => s.clone(),
        None => {
            return None;
        },
    };
    let cancelled_qty = match get_str(d, &"cancelled_qty".to_owned()) {
        Some(s) => s.clone(),
        None => {
            return None;
        },
    };
    let price_rank = match get_u64(d, &"price_rank".to_owned()) {
        Some(v) => v,
        None => {
            return None;
        },
    };
    Some(CancelData { order_id, refund_amount, refund_token, cancelled_qty, price_rank })
}

pub open spec fn extract_cancels_spec(a: Seq<Json>) -> Option<Seq<CancelDataV>>
    decreases a.len(),
{
    if a.len() == 0 {
        Some(Seq::<CancelDataV>::empty())
    } else {
        match extract_cancels_spec(a.drop_last()) {
            Some(cs) => match extract_cancel_spec(a.last()) {
                Some(c) => Some(cs.push(c)),
                None => None,
            },
            None => None,
        }
    }
}

proof fn lemma_extract_cancels_none(a: Seq<Json>, i: int)
    requires
        0 <= i < a.len(),
        extract_cancel_spec(a[i]) is None,
    ensures
        extract_cancels_spec(a) is None,
    decreases a.len(),
{
    if i < a.len() - 1 {
        assert(a.drop_last()[i] == a[i]);
        lemma_extract_cancels_none(a.drop_last(), i);
    }
}

fn extract_cancels(a: &Vec<Json>) -> (r: Option<Vec<CancelData>>)
    ensures
        match r {
            Some(v) => extract_cancels_spec(a@) == Some(v@.map_values(|c: CancelData| c@)),
            None => extract_cancels_spec(a@) is None,
        },
{
    let mut out: Vec<CancelData> = Vec::new();
    let mut i: usize = 0;
    proof {
        assert(out@.map_values(|c: CancelData| c@) =~= Seq::<CancelDataV>::empty());
    }
    while i < a.len()
        invariant
            0 <= i <= a@.len(),
            extract_cancels_spec(a@.take(i as int)) == Some(out@.map_values(|c: CancelData| c@)),
        decreases a@.len() - i,
    {
        let c = match extract_cancel(&a[i]) {
            Some(c) => c,
            None => {
                proof {
                    lemma_extract_cancels_none(a@, i as int);
                }
                return None;
            },
        };
        let ghost prev = out@;
        out.push(c);
        i += 1;
        proof {
            let t = a@.take(i as int);
            assert(t.drop_last() =~= a@.take(i as int - 1));
            assert(t.last() == a@[i as int - 1]);
            assert(out@.map_values(|c: CancelData| c@) =~= prev.map_values(|c: CancelData| c@).push(
                out@.last()@,
            ));
        }
    }
    proof {
        assert(a@.take(a@.len() as int) =~= a@);
    }
    Some(out)
}

pub open spec fn extract_new_cancel_spec(d: Seq<(String, Json)>) -> Option<NewCancelDataV> {
    if get_bytes_spec(d, "market_id"@) is Some {
        match obj_get_spec(d, "cancels"@) {
            Some(Json::Arr(a)) => match extract_cancels_spec(a@) {
                Some(cs) => Some(
                    NewCancelDataV {
                        market_id: get_bytes_spec(d, "market_id"@).unwrap(),
                        cancels: cs,
                    },
                ),
                None => None,
            },
            _ => None,
        }
    } else {
        None
    }
}

fn extract_new_cancel(d: &Vec<(String, Json)>) -> (r: Option<NewCancelData>)
    ensures
        match r {
            Some(e) => extract_new_cancel_spec(d@) == Some(e@),
            None => extract_new_cancel_spec(d@) is None,
        },
{
    let market_id = match get_bytes(d, &"market_id".to_owned()) {
        Some(b) => b,
        None => {
            return None;
        },
    };
    let cancels = match obj_get(d, &"cancels".to_owned()) {
        Some(Json::Arr(a)) => match extract_cancels(a) {
            Some(v) => v,
            None => {
                return None;
            },
        },
        _ => {
            return None;
        },
    };
    Some(NewCancelData { market_id, cancels })
}

// ---------------------------------------------------------------------------
// The whole document.
// ---------------------------------------------------------------------------

/// The event that a JSON document describes: an object whose `event` field
/// names the kind and whose `data` field holds the kind's fields.
pub open spec fn extract_spec(j: Json) -> Option<DexEventV> {
    match j {
        Json::Obj(f) => match obj_get_spec(f@, "event"@) {
            Some(Json::Str(k)) => match obj_get_spec(f@, "data"@) {
                Some(Json::Obj(df)) => {
                    if k@ == "new_market"@ {
                        match extract_market_spec(df@) {
                            Some(m) => Some(DexEventV::NewMarket(m)),
                            None => None,
                        }
                    } else if k@ == "new_order"@ {
                        match extract_order_spec(df@) {
                            Some(o) => Some(DexEventV::Order(o)),
                            None => None,
                        }
                    } else if k@ == "new_fill"@ {
                        match extract_new_fill_spec(df@) {
                            Some(fe) => Some(DexEventV::Fill(fe)),
                            None => None,
                        }
                    } else if k@ == "new_cancel"@ {
                        match extract_new_cancel_spec(df@) {
                            Some(c) => Some(DexEventV::Cancel(c)),
                            None => None,
                        }
                    } else {
                        None
                    }
                },
                _ => None,
            },
            _ => None,
        },
        _ => None,
    }
}

/// Decodes an event from a parsed document.
pub fn extract_event(j: &Json) -> (r: Option<DexEvent>)
    ensures
        match r {
            Some(e) => extract_spec(*j) == Some(e@),
            None => extract_spec(*j) is None,
        },
{
    let f = match j {
        Json::Obj(f) => f,
        _ => {
            return None;
        },
    };
    let kind = match obj_get(f, &"event".to_owned()) {
        Some(Json::Str(k)) => k,
        _ => {
            return None;
        },
    };
    let df = match obj_get(f, &"data".to_owned()) {
        Some(Json::Obj(df)) => df,
        _ => {
            return None;
        },
    };
    if *kind == "new_market".to_owned() {
        match extract_market(df) {
            Some(m) => Some(DexEvent::NewMarket(m)),
            None => None,
        }
    } else if *kind == "new_order".to_owned() {
        match extract_order(df) {
            Some(o) => Some(DexEvent::Order(o)),
            None => None,
        }
    } else if *kind == "new_fill".to_owned() {
        match extract_new_fill(df) {
            Some(fe) => Some(DexEvent::Fill(fe)),
            None => None,
        }
    } else if *kind == "new_cancel".to_owned() {
        match extract_new_cancel(df) {
            Some(c) => Some(DexEvent::Cancel(c)),
            None => None,
        }
    } else {
        None
    }
}

// ---------------------------------------------------------------------------
// The candidate test and the decode entry point.
// ---------------------------------------------------------------------------

/// The candidate prefix. It is empty: every log line of the watched contracts
/// is taken as a candidate event payload.
pub open spec fn event_prefix() -> Seq<char> {
    Seq::<char>::empty()
}

/// Whether a log line is a candidate event payload: whether it starts with
/// the candidate prefix.
pub open spec fn is_event_log_spec(s: Seq<char>) -> bool {
    event_prefix().is_prefix_of(s)
}

/// Returns whether the string starts with the candidate prefix.
pub fn is_event_log(s: &str) -> (r: bool)
    ensures
        r == is_event_log_spec(s@),
{
    proof {
        assert(event_prefix() =~= s@.subrange(0, 0));
    }
    true
}

/// The event payload of a log line: the line with the candidate prefix
/// removed.
pub open spec fn payload_of(s: Seq<char>) -> Seq<char> {
    s.skip(event_prefix().len() as int)
}

/// Returns the event payload of a log line.
pub fn extract_event_str(s: &str) -> (r: String)
    ensures
        r@ == payload_of(s@),
{
    proof {
        assert(s@.skip(0) =~= s@);
    }
    s.to_owned()
}

/// The event that a log line's payload decodes to, if any.
pub open spec fn parse_dex_event_spec(s: Seq<char>) -> Option<DexEventV> {
    match json_of(payload_of(s)) {
        Some(j) => extract_spec(j),
        None => None,
    }
}

/// Decodes a log line's payload: parses it as a JSON document and reads the
/// event out of it. A failure is scoped to this one line; callers skip it and
/// go on.
pub fn parse_dex_event(s: &str) -> (r: Result<DexEvent, DecodeError>)
    ensures
        match r {
            Ok(e) => parse_dex_event_spec(s@) == Some(e@),
            Err(DecodeError::InvalidJson) => json_of(payload_of(s@)) is None,
            Err(DecodeError::MalformedEvent) => json_of(payload_of(s@)) is Some
                && parse_dex_event_spec(s@) is None,
        },
{
    let payload = extract_event_str(s);
    match parse_json(payload.as_str()) {
        Some(j) => match extract_event(&j) {
            Some(e) => Ok(e),
            None => Err(DecodeError::MalformedEvent),
        },
        None => Err(DecodeError::InvalidJson),
    }
}

} // verus!
