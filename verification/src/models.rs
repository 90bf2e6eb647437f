//! Storage records, the staged batch of one block's records, the five
//! append-only tables, and the checkpoint rules.
//!
//! Identifiers are stored as base-58 texts; prices, quantities and fees as
//! decimal texts; a rank of `-1` means the order did not post to the book.

use vstd::prelude::*;
use crate::event::{
    Side, OrderType, NewMarketData, NewMarketDataV, NewOrderData, NewOrderDataV, NewFillData,
    NewFillDataV, FillDataV, NewCancelData, NewCancelDataV, CancelDataV,
};

verus! {

/// A fatal mapping fault: the event schema and the storage schema have gone
/// out of sync.
#[derive(Clone, Copy, Debug, PartialEq, Eq, Structural)]
pub enum MapError {
    /// A price rank does not fit the storage column's 32-bit width.
    RankOverflow,
}

/// A checkpoint write fault.
#[derive(Clone, Copy, Debug, PartialEq, Eq, Structural)]
pub enum StoreError {
    /// The height was committed before; the write must roll back.
    DuplicateHeight,
}

// ---------------------------------------------------------------------------
// Encoding of identifiers, sides and order types.
// ---------------------------------------------------------------------------

/// What `bs58` makes of a byte string: its base-58 text under the Bitcoin
/// alphabet, a function of the bytes alone.
pub uninterp spec fn base58_of(b: Seq<u8>) -> Seq<char>;

/// Relies on `bs58::encode(..).into_string()`: the base-58 text of the bytes.
#[verifier::external_body]
pub(crate) fn base58_encode(data: &Vec<u8>) -> (r: String)
    ensures
        r@ == base58_of(data@),
{
    bs58::encode(data).into_string()
}

/// The storage text of a side.
pub open spec fn side_text(s: Side) -> Seq<char> {
    match s {
        Side::Buy => "buy"@,
        Side::Sell => "sell"@,
    }
}

/// Returns the storage text of a side.
pub fn side_to_string(s: Side) -> (r: String)
    ensures
        r@ == side_text(s),
{
    match s {
        Side::Buy => "buy".to_owned(),
        Side::Sell => "sell".to_owned(),
    }
}

/// The storage text of an order type.
pub open spec fn order_type_text(t: OrderType) -> Seq<char> {
    match t {
        OrderType::Limit => "limit"@,
        OrderType::ImmediateOrCancel => "ioc"@,
        OrderType::PostOnly => "postOnly"@,
        OrderType::FillOrKill => "fillOrKill"@,
        OrderType::Market => "market"@,
    }
}

/// Returns the storage text of an order type.
pub fn order_type_to_string(order_type: OrderType) -> (r: String)
    ensures
        r@ == order_type_text(order_type),
{
    match order_type {
        OrderType::Limit => "limit".to_owned(),
        OrderType::ImmediateOrCancel => "ioc".to_owned(),
        OrderType::PostOnly => "postOnly".to_owned(),
        OrderType::FillOrKill => "fillOrKill".to_owned(),
        OrderType::Market => "market".to_owned(),
    }
}

// ---------------------------------------------------------------------------
// The four event records.
// ---------------------------------------------------------------------------

/// A row of the market_event table.
pub struct NewMarketEvent {
    pub receipt_id: String,
    pub market_id: String,
    pub base_token_id: String,
    pub quote_token_id: String,
    pub created_at: u64,
}

pub ghost struct NewMarketEventV {
    pub receipt_id: Seq<char>,
    pub market_id: Seq<char>,
    pub base_token_id: Seq<char>,
    pub quote_token_id: Seq<char>,
    pub created_at: u64,
}

impl View for NewMarketEvent {
    type V = NewMarketEventV;

    open spec fn view(&self) -> NewMarketEventV {
        NewMarketEventV {
            receipt_id: self.receipt_id@,
            market_id: self.market_id@,
            base_token_id: self.base_token_id@,
            quote_token_id: self.quote_token_id@,
            created_at: self.created_at,
        }
    }
}

/// A row of the order_event table. `price_rank` is `-1` where the order did
/// not post.
pub struct NewOrderEvent {
    pub account_id: String,
    pub receipt_id: String,
    pub order_id: String,
    pub market_id: String,
    pub limit_price: String,
    pub quantity: String,
    pub side: String,
    pub order_type: String,
    pub taker_fee: String,
    pub created_at: u64,
    pub referrer_id: Option<String>,
    pub referrer_rebate: String,
    pub is_swap: bool,
    pub price_rank: i32,
}

pub ghost struct NewOrderEventV {
    pub account_id: Seq<char>,
    pub receipt_id: Seq<char>,
    pub order_id: Seq<char>,
    pub market_id: Seq<char>,
    pub limit_price: Seq<char>,
    pub quantity: Seq<char>,
    pub side: Seq<char>,
    pub order_type: Seq<char>,
    pub taker_fee: Seq<char>,
    pub created_at: u64,
    pub referrer_id: Option<Seq<char>>,
    pub referrer_rebate: Seq<char>,
    pub is_swap: bool,
    pub price_rank: int,
}

impl View for NewOrderEvent {
    type V = NewOrderEventV;

    open spec fn view(&self) -> NewOrderEventV {
        NewOrderEventV {
            account_id: self.account_id@,
            receipt_id: self.receipt_id@,
            order_id: self.order_id@,
            market_id: self.market_id@,
            limit_price: self.limit_price@,
            quantity: self.quantity@,
            side: self.side@,
            order_type: self.order_type@,
            taker_fee: self.taker_fee@,
            created_at: self.created_at,
            referrer_id: match self.referrer_id {
                Some(ref r) => Some(r@),
                None => None,
            },
            referrer_rebate: self.referrer_rebate@,
            is_swap: self.is_swap,
            price_rank: self.price_rank as int,
        }
    }
}

/// A row of the fill_event table. `is_bid` says whether the taker order was
/// a bid.
pub struct NewFillEvent {
    pub receipt_id: String,
    pub market_id: String,
    pub maker_order_id: String,
    pub taker_order_id: String,
    pub fill_qty: String,
    pub fill_price: String,
    pub quote_qty: String,
    pub maker_rebate: String,
    pub created_at: u64,
    pub is_bid: bool,
    pub taker_account_id: String,
    pub maker_account_id: String,
    pub maker_price_rank: i32,
}

pub ghost struct NewFillEventV {
    pub receipt_id: Seq<char>,
    pub market_id: Seq<char>,
    pub maker_order_id: Seq<char>,
    pub taker_order_id: Seq<char>,
    pub fill_qty: Seq<char>,
    pub fill_price: Seq<char>,
    pub quote_qty: Seq<char>,
    pub maker_rebate: Seq<char>,
    pub created_at: u64,
    pub is_bid: bool,
    pub taker_account_id: Seq<char>,
    pub maker_account_id: Seq<char>,
    pub maker_price_rank: int,
}

impl View for NewFillEvent {
    type V = NewFillEventV;

    open spec fn view(&self) -> NewFillEventV {
        NewFillEventV {
            receipt_id: self.receipt_id@,
            market_id: self.market_id@,
            maker_order_id: self.maker_order_id@,
            taker_order_id: self.taker_order_id@,
            fill_qty: self.fill_qty@,
            fill_price: self.fill_price@,
            quote_qty: self.quote_qty@,
            maker_rebate: self.maker_rebate@,
            created_at: self.created_at,
            is_bid: self.is_bid,
            taker_account_id: self.taker_account_id@,
            maker_account_id: self.maker_account_id@,
            maker_price_rank: self.maker_price_rank as int,
        }
    }
}

/// A row of the cancel_event table.
pub struct NewCancelEvent {
    pub receipt_id: String,
    pub market_id: String,
    pub order_id: String,
    pub refund_amount: String,
    pub refund_token: String,
    pub cancelled_qty: String,
    pub created_at: u64,
    pub price_rank: i32,
}

pub ghost struct NewCancelEventV {
    pub receipt_id: Seq<char>,
    pub market_id: Seq<char>,
    pub order_id: Seq<char>,
    pub refund_amount: Seq<char>,
    pub refund_token: Seq<char>,
    pub cancelled_qty: Seq<char>,
    pub created_at: u64,
    pub price_rank: int,
}

impl View for NewCancelEvent {
    type V = NewCancelEventV;

    open spec fn view(&self) -> NewCancelEventV {
        NewCancelEventV {
            receipt_id: self.receipt_id@,
            market_id: self.market_id@,
            order_id: self.order_id@,
            refund_amount: self.refund_amount@,
            refund_token: self.refund_token@,
            cancelled_qty: self.cancelled_qty@,
            created_at: self.created_at,
            price_rank: self.price_rank as int,
        }
    }
}

/// A row of the indexer_processed_block table: one committed height.
#[derive(Clone, Copy, Debug, PartialEq, Eq, Structural)]
pub struct IndexerProcessedBlock {
    pub block_height: u64,
}

// ---------------------------------------------------------------------------
// What each event maps to.
// ---------------------------------------------------------------------------

/// The row that a market event maps to.
pub open spec fn market_row_spec(
    receipt_id: Seq<char>,
    created_at: u64,
    ev: NewMarketDataV,
) -> NewMarketEventV {
    NewMarketEventV {
        receipt_id,
        market_id: base58_of(ev.market_id),
        base_token_id: ev.base_token,
        quote_token_id: ev.quote_token,
        created_at,
    }
}

/// The rank column's value: the rank where one was given, `-1` where the
/// order did not post.
pub open spec fn rank_or_sentinel(r: Option<u64>) -> int {
    match r {
        Some(v) => v as int,
        None => -1,
    }
}

/// Whether an order event's rank exceeds the storage column's width.
pub open spec fn order_rank_overflow(ev: NewOrderDataV) -> bool {
    ev.price_rank matches Some(r) && r > i32::MAX as u64
}

/// The row that an order event maps to.
pub open spec fn order_row_spec(
    receipt_id: Seq<char>,
    created_at: u64,
    ev: NewOrderDataV,
) -> NewOrderEventV {
    NewOrderEventV {
        account_id: ev.account_id,
        receipt_id,
        order_id: base58_of(ev.order_id),
        market_id: base58_of(ev.market_id),
        limit_price: ev.limit_price,
        quantity: ev.quantity,
        side: side_text(ev.side),
        order_type: order_type_text(ev.order_type),
        taker_fee: ev.taker_fee,
        created_at,
        referrer_id: ev.referrer_id,
        referrer_rebate: ev.referrer_rebate,
        is_swap: ev.is_swap,
        price_rank: rank_or_sentinel(ev.price_rank),
    }
}

/// Whether any fill of the event carries a rank over the column's width.
pub open spec fn fill_rank_overflow(ev: NewFillDataV) -> bool {
    exists|i: int|
        0 <= i < ev.fills.len() && ev.fills[i].maker_price_rank > i32::MAX as u64
}

/// The row that one fill of a fill event maps to.
pub open spec fn fill_row_spec(
    receipt_id: Seq<char>,
    created_at: u64,
    market_id: Seq<u8>,
    taker_order_id: Seq<u8>,
    f: FillDataV,
) -> NewFillEventV {
    NewFillEventV {
        receipt_id,
        market_id: base58_of(market_id),
        maker_order_id: base58_of(f.maker_order_id),
        taker_order_id: base58_of(taker_order_id),
        fill_qty: f.fill_qty,
        fill_price: f.fill_price,
        quote_qty: f.quote_qty,
        maker_rebate: f.maker_rebate,
        created_at,
        is_bid: f.side == Side::Buy,
        taker_account_id: f.taker_account_id,
        maker_account_id: f.maker_account_id,
        maker_price_rank: f.maker_price_rank as int,
    }
}

/// The rows that a fill event maps to: one per fill, sharing the receipt and
/// the timestamp.
pub open spec fn fill_rows_spec(
    receipt_id: Seq<char>,
    created_at: u64,
    ev: NewFillDataV,
) -> Seq<NewFillEventV> {
    ev.fills.map_values(
        |f: FillDataV| fill_row_spec(receipt_id, created_at, ev.market_id, ev.order_id, f),
    )
}

/// Whether any cancel of the event carries a rank over the column's width.
pub open spec fn cancel_rank_overflow(ev: NewCancelDataV) -> bool {
    exists|i: int|
        0 <= i < ev.cancels.len() && ev.cancels[i].price_rank > i32::MAX as u64
}

/// The row that one cancel of a cancel event maps to.
pub open spec fn cancel_row_spec(
    receipt_id: Seq<char>,
    created_at: u64,
    market_id: Seq<u8>,
    c: CancelDataV,
) -> NewCancelEventV {
    NewCancelEventV {
        receipt_id,
        market_id: base58_of(market_id),
        order_id: base58_of(c.order_id),
        refund_amount: c.refund_amount,
        refund_token: c.refund_token,
        cancelled_qty: c.cancelled_qty,
        created_at,
        price_rank: c.price_rank as int,
    }
}

/// The rows that a cancel event maps to: one per cancelled order, sharing the
/// receipt and the timestamp.
pub open spec fn cancel_rows_spec(
    receipt_id: Seq<char>,
    created_at: u64,
    ev: NewCancelDataV,
) -> Seq<NewCancelEventV> {
    ev.cancels.map_values(|c: CancelDataV| cancel_row_spec(receipt_id, created_at, ev.market_id, c))
}

// ---------------------------------------------------------------------------
// The staged batch of one block.
// ---------------------------------------------------------------------------

/// The records of one block, staged for a single atomic commit.
pub struct StagedBatch {
    pub market_events: Vec<NewMarketEvent>,
    pub order_events: Vec<NewOrderEvent>,
    pub fill_events: Vec<NewFillEvent>,
    pub cancel_events: Vec<NewCancelEvent>,
}

/// One group of records per event table.
pub ghost struct RowsV {
    pub market: Seq<NewMarketEventV>,
    pub order: Seq<NewOrderEventV>,
    pub fill: Seq<NewFillEventV>,
    pub cancel: Seq<NewCancelEventV>,
}

impl View for StagedBatch {
    type V = RowsV;

    open spec fn view(&self) -> RowsV {
        RowsV {
            market: self.market_events@.map_values(|r: NewMarketEvent| r@),
            order: self.order_events@.map_values(|r: NewOrderEvent| r@),
            fill: self.fill_events@.map_values(|r: NewFillEvent| r@),
            cancel: self.cancel_events@.map_values(|r: NewCancelEvent| r@),
        }
    }
}

/// No records.
pub open spec fn rows_empty() -> RowsV {
    RowsV {
        market: Seq::<NewMarketEventV>::empty(),
        order: Seq::<NewOrderEventV>::empty(),
        fill: Seq::<NewFillEventV>::empty(),
        cancel: Seq::<NewCancelEventV>::empty(),
    }
}

/// The records of `a` followed by those of `b`, table by table.
pub open spec fn rows_add(a: RowsV, b: RowsV) -> RowsV {
    RowsV {
        market: a.market + b.market,
        order: a.order + b.order,
        fill: a.fill + b.fill,
        cancel: a.cancel + b.cancel,
    }
}

impl StagedBatch {
    /// An empty batch.
    pub fn new() -> (r: StagedBatch)
        ensures
            r@ == rows_empty(),
    {
        let r = StagedBatch {
            market_events: Vec::new(),
            order_events: Vec::new(),
            fill_events: Vec::new(),
            cancel_events: Vec::new(),
        };
        proof {
            assert(r@.market =~= rows_empty().market);
            assert(r@.order =~= rows_empty().order);
            assert(r@.fill =~= rows_empty().fill);
            assert(r@.cancel =~= rows_empty().cancel);
        }
        r
    }

    /// Moves every record of `other` to the end of this batch.
    pub fn absorb(&mut self, other: StagedBatch)
        ensures
            final(self)@ == rows_add(old(self)@, other@),
    {
        let mut other = other;
        let ghost a = self@;
        let ghost b = other@;
        self.market_events.append(&mut other.market_events);
        self.order_events.append(&mut other.order_events);
        self.fill_events.append(&mut other.fill_events);
        self.cancel_events.append(&mut other.cancel_events);
        proof {
            assert(self@.market =~= a.market + b.market);
            assert(self@.order =~= a.order + b.order);
            assert(self@.fill =~= a.fill + b.fill);
            assert(self@.cancel =~= a.cancel + b.cancel);
        }
    }
}

/// Stages the row of a market event.
pub fn save_new_market_event(
    batch: &mut StagedBatch,
    receipt_id: String,
    created_at: u64,
    ev: NewMarketData,
) -> (r: Result<(), MapError>)
    ensures
        r is Ok,
        final(batch)@ == rows_add(
            old(batch)@,
            RowsV {
                market: seq![market_row_spec(receipt_id@, created_at, ev@)],
                order: Seq::<NewOrderEventV>::empty(),
                fill: Seq::<NewFillEventV>::empty(),
                cancel: Seq::<NewCancelEventV>::empty(),
            },
        ),
{
    let ghost before = batch@;
    let row = NewMarketEvent {
        receipt_id,
        market_id: base58_encode(&ev.market_id),
        base_token_id: ev.base_token,
        quote_token_id: ev.quote_token,
        created_at,
    };
    batch.market_events.push(row);
    proof {
        assert(batch@.market =~= before.market + seq![
            market_row_spec(receipt_id@, created_at, ev@),
        ]);
        assert(batch@.order =~= before.order + Seq::<NewOrderEventV>::empty());
        assert(batch@.fill =~= before.fill + Seq::<NewFillEventV>::empty());
        assert(batch@.cancel =~= before.cancel + Seq::<NewCancelEventV>::empty());
    }
    Ok(())
}

/// Stages the row of an order event. A rank over the column's width is a
/// fatal schema mismatch: nothing is staged and the block must abort.
pub fn save_new_order_event(
    batch: &mut StagedBatch,
    receipt_id: String,
    created_at: u64,
    ev: NewOrderData,
) -> (r: Result<(), MapError>)
    ensures
        order_rank_overflow(ev@) ==> r == Err::<(), MapError>(MapError::RankOverflow) && final(batch)@ == old(batch)@,
        !order_rank_overflow(ev@) ==> r is Ok && final(batch)@ == rows_add(
            old(batch)@,
            RowsV {
                market: Seq::<NewMarketEventV>::empty(),
                order: seq![order_row_spec(receipt_id@, created_at, ev@)],
                fill: Seq::<NewFillEventV>::empty(),
                cancel: Seq::<NewCancelEventV>::empty(),
            },
        ),
{
    let ghost before = batch@;
    let price_rank: i32 = match ev.price_rank {
        Some(v) => {
            if v > i32::MAX as u64 {
                return Err(MapError::RankOverflow);
            }
            v as i32
        },
        None => -1,
    };
    let row = NewOrderEvent {
        account_id: ev.account_id,
        receipt_id,
        order_id: base58_encode(&ev.order_id),
        market_id: base58_encode(&ev.market_id),
        limit_price: ev.limit_price,
        quantity: ev.quantity,
        side: side_to_string(ev.side),
        order_type: order_type_to_string(ev.order_type),
        taker_fee: ev.taker_fee,
        created_at,
        referrer_id: ev.referrer_id,
        referrer_rebate: ev.referrer_rebate,
        is_swap: ev.is_swap,
        price_rank,
    };
    batch.order_events.push(row);
    proof {
        assert(batch@.order =~= before.order + seq![
            order_row_spec(receipt_id@, created_at, ev@),
        ]);
        assert(batch@.market =~= before.market + Seq::<NewMarketEventV>::empty());
        assert(batch@.fill =~= before.fill + Seq::<NewFillEventV>::empty());
        assert(batch@.cancel =~= before.cancel + Seq::<NewCancelEventV>::empty());
    }
    Ok(())
}

/// Stages one row per fill of a fill event, all sharing the receipt and the
/// timestamp. A rank over the column's width is fatal: nothing is staged.
pub fn save_new_fill_event(
    batch: &mut StagedBatch,
    receipt_id: String,
    created_at: u64,
    ev: NewFillData,
) -> (r: Result<(), MapError>)
    ensures
        fill_rank_overflow(ev@) ==> r == Err::<(), MapError>(MapError::RankOverflow) && final(batch)@ == old(batch)@,
        !fill_rank_overflow(ev@) ==> r is Ok && final(batch)@ == rows_add(
            old(batch)@,
            RowsV {
                market: Seq::<NewMarketEventV>::empty(),
                order: Seq::<NewOrderEventV>::empty(),
                fill: fill_rows_spec(receipt_id@, created_at, ev@),
                cancel: Seq::<NewCancelEventV>::empty(),
            },
        ),
{
    let ghost before = batch@;
    let market_id = base58_encode(&ev.market_id);
    let taker_order_id = base58_encode(&ev.order_id);
    let mut rows: Vec<NewFillEvent> = Vec::new();
    let mut i: usize = 0;
    while i < ev.fills.len()
        invariant
            0 <= i <= ev.fills@.len(),
            market_id@ == base58_of(ev@.market_id),
            taker_order_id@ == base58_of(ev@.order_id),
            forall|j: int|
                0 <= j < i ==> ev@.fills[j].maker_price_rank <= i32::MAX as u64,
            rows@.map_values(|x: NewFillEvent| x@) =~= ev@.fills.take(i as int).map_values(
                |f: FillDataV| fill_row_spec(receipt_id@, created_at, ev@.market_id, ev@.order_id, f),
            ),
        decreases ev.fills@.len() - i,
    {
        let f = &ev.fills[i];
        if f.maker_price_rank > i32::MAX as u64 {
            proof {
                assert(ev@.fills[i as int].maker_price_rank > i32::MAX as u64);
            }
            return Err(MapError::RankOverflow);
        }
        let row = NewFillEvent {
            receipt_id: receipt_id.clone(),
            market_id: market_id.clone(),
            maker_order_id: base58_encode(&f.maker_order_id),
            taker_order_id: taker_order_id.clone(),
            fill_qty: f.fill_qty.clone(),
            fill_price: f.fill_price.clone(),
            quote_qty: f.quote_qty.clone(),
            maker_rebate: f.maker_rebate.clone(),
            created_at,
            is_bid: f.side == Side::Buy,
            taker_account_id: f.taker_account_id.clone(),
            maker_account_id: f.maker_account_id.clone(),
            maker_price_rank: f.maker_price_rank as i32,
        };
        let ghost prev = rows@;
        rows.push(row);
        i += 1;
        proof {
            let m = |f: FillDataV|
                fill_row_spec(receipt_id@, created_at, ev@.market_id, ev@.order_id, f);
            assert(ev@.fills.take(i as int).drop_last() =~= ev@.fills.take(i as int - 1));
            assert(ev@.fills.take(i as int).last() == ev@.fills[i as int - 1]);
            assert(rows@.map_values(|x: NewFillEvent| x@) =~= prev.map_values(
                |x: NewFillEvent| x@,
            ).push(rows@.last()@));
            assert(ev@.fills.take(i as int).map_values(m) =~= ev@.fills.take(i as int - 1)
                .map_values(m).push(m(ev@.fills[i as int - 1])));
        }
    }
    proof {
        assert(ev@.fills.take(ev@.fills.len() as int) =~= ev@.fills);
        assert(!fill_rank_overflow(ev@));
    }
    let mut rows = rows;
    batch.fill_events.append(&mut rows);
    proof {
        assert(batch@.fill =~= before.fill + fill_rows_spec(receipt_id@, created_at, ev@));
        assert(batch@.market =~= before.market + Seq::<NewMarketEventV>::empty());
        assert(batch@.order =~= before.order + Seq::<NewOrderEventV>::empty());
        assert(batch@.cancel =~= before.cancel + Seq::<NewCancelEventV>::empty());
    }
    Ok(())
}

/// Stages one row per cancelled order of a cancel event, all sharing the
/// receipt and the timestamp. A rank over the column's width is fatal:
/// nothing is staged.
pub fn save_new_cancel_event(
    batch: &mut StagedBatch,
    receipt_id: String,
    created_at: u64,
    ev: NewCancelData,
) -> (r: Result<(), MapError>)
    ensures
        cancel_rank_overflow(ev@) ==> r == Err::<(), MapError>(MapError::RankOverflow) && final(batch)@ == old(batch)@,
        !cancel_rank_overflow(ev@) ==> r is Ok && final(batch)@ == rows_add(
            old(batch)@,
            RowsV {
                market: Seq::<NewMarketEventV>::empty(),
                order: Seq::<NewOrderEventV>::empty(),
                fill: Seq::<NewFillEventV>::empty(),
                cancel: cancel_rows_spec(receipt_id@, created_at, ev@),
            },
        ),
{
    let ghost before = batch@;
    let market_id = base58_encode(&ev.market_id);
    let mut rows: Vec<NewCancelEvent> = Vec::new();
    let mut i: usize = 0;
    while i < ev.cancels.len()
        invariant
            0 <= i <= ev.cancels@.len(),
            market_id@ == base58_of(ev@.market_id),
            forall|j: int|
                0 <= j < i ==> ev@.cancels[j].price_rank <= i32::MAX as u64,
            rows@.map_values(|x: NewCancelEvent| x@) =~= ev@.cancels.take(i as int).map_values(
                |c: CancelDataV| cancel_row_spec(receipt_id@, created_at, ev@.market_id, c),
            ),
        decreases ev.cancels@.len() - i,
    {
        let c = &ev.cancels[i];
        if c.price_rank > i32::MAX as u64 {
            proof {
                assert(ev@.cancels[i as int].price_rank > i32::MAX as u64);
            }
            return Err(MapError::RankOverflow);
        }
        let row = NewCancelEvent {
            receipt_id: receipt_id.clone(),
            market_id: market_id.clone(),
            order_id: base58_encode(&c.order_id),
            refund_amount: c.refund_amount.clone(),
            refund_token: c.refund_token.clone(),
            cancelled_qty: c.cancelled_qty.clone(),
            created_at,
            price_rank: c.price_rank as i32,
        };
        let ghost prev = rows@;
        rows.push(row);
        i += 1;
        proof {
            let m = |c: CancelDataV| cancel_row_spec(receipt_id@, created_at, ev@.market_id, c);
            assert(ev@.cancels.take(i as int).drop_last() =~= ev@.cancels.take(i as int - 1));
            assert(ev@.cancels.take(i as int).last() == ev@.cancels[i as int - 1]);
            assert(rows@.map_values(|x: NewCancelEvent| x@) =~= prev.map_values(
                |x: NewCancelEvent| x@,
            ).push(rows@.last()@));
            assert(ev@.cancels.take(i as int).map_values(m) =~= ev@.cancels.take(i as int - 1)
                .map_values(m).push(m(ev@.cancels[i as int - 1])));
        }
    }
    proof {
        assert(ev@.cancels.take(ev@.cancels.len() as int) =~= ev@.cancels);
        assert(!cancel_rank_overflow(ev@));
    }
    let mut rows = rows;
    batch.cancel_events.append(&mut rows);
    proof {
        assert(batch@.cancel =~= before.cancel + cancel_rows_spec(receipt_id@, created_at, ev@));
        assert(batch@.market =~= before.market + Seq::<NewMarketEventV>::empty());
        assert(batch@.order =~= before.order + Seq::<NewOrderEventV>::empty());
        assert(batch@.fill =~= before.fill + Seq::<NewFillEventV>::empty());
    }
    Ok(())
}

// ---------------------------------------------------------------------------
// The store and the checkpoint rules.
// ---------------------------------------------------------------------------

/// The five append-only tables.
pub struct Store {
    pub market_events: Vec<NewMarketEvent>,
    pub order_events: Vec<NewOrderEvent>,
    pub fill_events: Vec<NewFillEvent>,
    pub cancel_events: Vec<NewCancelEvent>,
    pub checkpoints: Vec<IndexerProcessedBlock>,
}

pub ghost struct StoreV {
    pub market: Seq<NewMarketEventV>,
    pub order: Seq<NewOrderEventV>,
    pub fill: Seq<NewFillEventV>,
    pub cancel: Seq<NewCancelEventV>,
    pub checkpoints: Seq<u64>,
}

impl View for Store {
    type V = StoreV;

    open spec fn view(&self) -> StoreV {
        StoreV {
            market: self.market_events@.map_values(|r: NewMarketEvent| r@),
            order: self.order_events@.map_values(|r: NewOrderEvent| r@),
            fill: self.fill_events@.map_values(|r: NewFillEvent| r@),
            cancel: self.cancel_events@.map_values(|r: NewCancelEvent| r@),
            checkpoints: self.checkpoints@.map_values(|c: IndexerProcessedBlock| c.block_height),
        }
    }
}

/// The checkpoint table's uniqueness constraint: a height is committed at
/// most once.
pub open spec fn store_wf(s: StoreV) -> bool {
    forall|i: int, j: int|
        0 <= i < j < s.checkpoints.len() ==> s.checkpoints[i] != s.checkpoints[j]
}

impl Store {
    /// An empty store: nothing committed yet.
    pub fn new() -> (r: Store)
        ensures
            r@.market == Seq::<NewMarketEventV>::empty(),
            r@.order == Seq::<NewOrderEventV>::empty(),
            r@.fill == Seq::<NewFillEventV>::empty(),
            r@.cancel == Seq::<NewCancelEventV>::empty(),
            r@.checkpoints == Seq::<u64>::empty(),
            store_wf(r@),
    {
        let r = Store {
            market_events: Vec::new(),
            order_events: Vec::new(),
            fill_events: Vec::new(),
            cancel_events: Vec::new(),
            checkpoints: Vec::new(),
        };
        proof {
            assert(r@.market =~= Seq::<NewMarketEventV>::empty());
            assert(r@.order =~= Seq::<NewOrderEventV>::empty());
            assert(r@.fill =~= Seq::<NewFillEventV>::empty());
            assert(r@.cancel =~= Seq::<NewCancelEventV>::empty());
            assert(r@.checkpoints =~= Seq::<u64>::empty());
        }
        r
    }

    /// Moves a staged batch's records into the tables. The checkpoints stay
    /// as they are; callers write the checkpoint first, so a duplicate block
    /// never reaches this point.
    pub fn apply_batch(&mut self, batch: StagedBatch)
        ensures
            final(self)@.market == old(self)@.market + batch@.market,
            final(self)@.order == old(self)@.order + batch@.order,
            final(self)@.fill == old(self)@.fill + batch@.fill,
            final(self)@.cancel == old(self)@.cancel + batch@.cancel,
            final(self)@.checkpoints == old(self)@.checkpoints,
    {
        let mut batch = batch;
        let ghost a = self@;
        let ghost b = batch@;
        self.market_events.append(&mut batch.market_events);
        self.order_events.append(&mut batch.order_events);
        self.fill_events.append(&mut batch.fill_events);
        self.cancel_events.append(&mut batch.cancel_events);
        proof {
            assert(self@.market =~= a.market + b.market);
            assert(self@.order =~= a.order + b.order);
            assert(self@.fill =~= a.fill + b.fill);
            assert(self@.cancel =~= a.cancel + b.cancel);
            assert(self@.checkpoints =~= a.checkpoints);
        }
    }
}

/// The highest committed height among the checkpoints, zero where none is.
pub open spec fn latest_height(cps: Seq<u64>) -> u64
    decreases cps.len(),
{
    if cps.len() == 0 {
        0
    } else if latest_height(cps.drop_last()) >= cps.last() {
        latest_height(cps.drop_last())
    } else {
        cps.last()
    }
}

/// Reads the highest committed checkpoint, or zero where none exists: the
/// resume point's base after a restart.
pub fn get_latest_processed_block(store: &Store) -> (r: u64)
    ensures
        r == latest_height(store@.checkpoints),
{
    let mut best: u64 = 0;
    let mut i: usize = 0;
    while i < store.checkpoints.len()
        invariant
            0 <= i <= store.checkpoints@.len(),
            best == latest_height(store@.checkpoints.take(i as int)),
        decreases store.checkpoints@.len() - i,
    {
        let h = store.checkpoints[i].block_height;
        if h > best {
            best = h;
        }
        i += 1;
        proof {
            let t = store@.checkpoints.take(i as int);
            assert(t.drop_last() =~= store@.checkpoints.take(i as int - 1));
            assert(t.last() == store@.checkpoints[i as int - 1]);
        }
    }
    proof {
        assert(store@.checkpoints.take(store@.checkpoints.len() as int) =~= store@.checkpoints);
    }
    best
}

/// Writes the checkpoint for a height. A height committed before is refused,
/// so the enclosing block transaction rolls back: re-delivery of a committed
/// block is a silent no-op.
pub fn save_latest_processed_block(store: &mut Store, block_height: u64) -> (r: Result<
    (),
    StoreError,
>)
    ensures
        old(store)@.checkpoints.contains(block_height) ==> r == Err::<(), StoreError>(
            StoreError::DuplicateHeight,
        ) && final(store)@ == old(store)@,
        !old(store)@.checkpoints.contains(block_height) ==> r is Ok && final(store)@ == (StoreV {
            checkpoints: old(store)@.checkpoints.push(block_height),
            ..old(store)@
        }),
        store_wf(old(store)@) ==> store_wf(final(store)@),
{
    let ghost before = store@;
    let mut i: usize = 0;
    while i < store.checkpoints.len()
        invariant
            0 <= i <= store.checkpoints@.len(),
            store@ == before,
            forall|j: int| 0 <= j < i ==> before.checkpoints[j] != block_height,
        decreases store.checkpoints@.len() - i,
    {
        if store.checkpoints[i].block_height == block_height {
            proof {
                assert(before.checkpoints[i as int] == block_height);
            }
            return Err(StoreError::DuplicateHeight);
        }
        i += 1;
    }
    proof {
        assert(!before.checkpoints.contains(block_height)) by {
            if before.checkpoints.contains(block_height) {
                let k = choose|k: int|
                    0 <= k < before.checkpoints.len() && before.checkpoints[k] == block_height;
                assert(false);
            }
        }
    }
    store.checkpoints.push(IndexerProcessedBlock { block_height });
    proof {
        assert(store@.checkpoints =~= before.checkpoints.push(block_height));
        assert(store@.market =~= before.market);
        assert(store@.order =~= before.order);
        assert(store@.fill =~= before.fill);
        assert(store@.cancel =~= before.cancel);
    }
    Ok(())
}

/// The height to resume from: one past the highest committed checkpoint
/// (zero where none exists), or the operator's override where that is
/// higher. A committed height is never requested again.
pub open spec fn resume_height_spec(override_height: Option<u64>, cps: Seq<u64>) -> u64 {
    let base: u64 = if cps.len() == 0 {
        0
    } else if latest_height(cps) == u64::MAX {
        u64::MAX
    } else {
        (latest_height(cps) + 1) as u64
    };
    match override_height {
        None => base,
        Some(o) => if o > base {
            o
        } else {
            base
        },
    }
}

/// Computes the height to resume from after a restart.
pub fn resume_height(override_height: Option<u64>, store: &Store) -> (r: u64)
    ensures
        r == resume_height_spec(override_height, store@.checkpoints),
{
    let latest = get_latest_processed_block(store);
    let base: u64 = if store.checkpoints.len() == 0 {
        0
    } else if latest == u64::MAX {
        u64::MAX
    } else {
        latest + 1
    };
    match override_height {
        None => base,
        Some(o) => if o > base {
            o
        } else {
            base
        },
    }
}

} // verus!
