//! The outcome filter and the per-block transaction coordinator.
//!
//! A block is processed as one atomic unit: eligible outcomes are filtered,
//! their logs decoded and mapped, the records staged, and the checkpoint
//! written; either everything commits or nothing does. A height committed
//! before makes the whole block a silent no-op, so re-delivery is idempotent.

use vstd::prelude::*;
use crate::event::{DexEvent, DexEventV, parse_dex_event, parse_dex_event_spec, is_event_log,
    is_event_log_spec};
use crate::models::{
    MapError, RowsV, StagedBatch, Store, StoreV, store_wf, rows_add, rows_empty,
    save_new_market_event,
    save_new_order_event, save_new_fill_event, save_new_cancel_event, save_latest_processed_block,
    market_row_spec, order_row_spec, fill_rows_spec, cancel_rows_spec, order_rank_overflow,
    fill_rank_overflow, cancel_rank_overflow,
};

verus! {

/// The execution status of a receipt's outcome.
#[derive(Clone, Copy, Debug, PartialEq, Eq, Structural)]
pub enum ExecutionStatus {
    Success,
    Failure,
    Unknown,
}

/// The execution result of one on-chain action: its receipt, the receiving
/// contract, the status, and the emitted log lines. `is_action` says whether
/// the receipt is an action receipt; only those carry events.
pub struct ReceiptOutcome {
    pub receipt_id: String,
    pub receiver_id: String,
    pub status: ExecutionStatus,
    pub logs: Vec<String>,
    pub is_action: bool,
}

pub ghost struct ReceiptOutcomeV {
    pub receipt_id: Seq<char>,
    pub receiver_id: Seq<char>,
    pub status: ExecutionStatus,
    pub logs: Seq<Seq<char>>,
    pub is_action: bool,
}

impl View for ReceiptOutcome {
    type V = ReceiptOutcomeV;

    open spec fn view(&self) -> ReceiptOutcomeV {
        ReceiptOutcomeV {
            receipt_id: self.receipt_id@,
            receiver_id: self.receiver_id@,
            status: self.status,
            logs: self.logs@.map_values(|l: String| l@),
            is_action: self.is_action,
        }
    }
}

/// One block: a height, a nanosecond timestamp, and the outcomes of its
/// shards in delivery order.
pub struct Block {
    pub height: u64,
    pub timestamp: u64,
    pub outcomes: Vec<ReceiptOutcome>,
}

pub ghost struct BlockV {
    pub height: u64,
    pub timestamp: u64,
    pub outcomes: Seq<ReceiptOutcomeV>,
}

impl View for Block {
    type V = BlockV;

    open spec fn view(&self) -> BlockV {
        BlockV {
            height: self.height,
            timestamp: self.timestamp,
            outcomes: self.outcomes@.map_values(|o: ReceiptOutcome| o@),
        }
    }
}

/// The allow-list of contracts to watch, as text: `None` watches every
/// contract.
pub open spec fn watch_view(w: Option<Vec<String>>) -> Option<Seq<Seq<char>>> {
    match w {
        Some(l) => Some(l@.map_values(|s: String| s@)),
        None => None,
    }
}

/// Whether an outcome is eligible for event extraction: its status is no
/// failure and not unknown, it carries at least one log line, and, where an
/// allow-list was configured, its receiving contract is on it.
pub open spec fn should_save_spec(watch: Option<Seq<Seq<char>>>, o: ReceiptOutcomeV) -> bool {
    if o.status is Failure || o.status is Unknown {
        false
    } else if o.logs.len() == 0 {
        false
    } else {
        match watch {
            Some(l) => l.contains(o.receiver_id),
            None => true,
        }
    }
}

// ---------------------------------------------------------------------------
// What one block contributes to the tables.
// ---------------------------------------------------------------------------

/// The event a log line decodes to: the line must be a candidate and its
/// payload a well-formed event document.
pub open spec fn decoded_log(l: Seq<char>) -> Option<DexEventV> {
    if is_event_log_spec(l) {
        parse_dex_event_spec(l)
    } else {
        None
    }
}

/// The records one decoded event maps to.
pub open spec fn event_rows_spec(e: DexEventV, receipt_id: Seq<char>, ts: u64) -> RowsV {
    match e {
        DexEventV::NewMarket(m) => RowsV {
            market: seq![market_row_spec(receipt_id, ts, m)],
            ..rows_empty()
        },
        DexEventV::Order(o) => RowsV { order: seq![order_row_spec(receipt_id, ts, o)], ..rows_empty() },
        DexEventV::Fill(f) => RowsV { fill: fill_rows_spec(receipt_id, ts, f), ..rows_empty() },
        DexEventV::Cancel(c) => RowsV { cancel: cancel_rows_spec(receipt_id, ts, c), ..rows_empty() },
    }
}

/// Whether a decoded event carries a rank over the storage column's width.
pub open spec fn event_overflow(e: DexEventV) -> bool {
    match e {
        DexEventV::NewMarket(_) => false,
        DexEventV::Order(o) => order_rank_overflow(o),
        DexEventV::Fill(f) => fill_rank_overflow(f),
        DexEventV::Cancel(c) => cancel_rank_overflow(c),
    }
}

/// The records one log line contributes: none where it decodes to no event.
pub open spec fn log_rows_spec(l: Seq<char>, receipt_id: Seq<char>, ts: u64) -> RowsV {
    match decoded_log(l) {
        Some(e) => event_rows_spec(e, receipt_id, ts),
        None => rows_empty(),
    }
}

/// Whether a log line decodes to an event whose rank overflows.
pub open spec fn log_overflow(l: Seq<char>) -> bool {
    match decoded_log(l) {
        Some(e) => event_overflow(e),
        None => false,
    }
}

/// The records of an outcome's logs, in log order.
pub open spec fn logs_rows_spec(ls: Seq<Seq<char>>, receipt_id: Seq<char>, ts: u64) -> RowsV
    decreases ls.len(),
{
    if ls.len() == 0 {
        rows_empty()
    } else {
        rows_add(
            logs_rows_spec(ls.drop_last(), receipt_id, ts),
            log_rows_spec(ls.last(), receipt_id, ts),
        )
    }
}

/// Whether any log of the sequence overflows.
pub open spec fn logs_overflow(ls: Seq<Seq<char>>) -> bool {
    exists|i: int| 0 <= i < ls.len() && log_overflow(ls[i])
}

/// The records one outcome contributes once found eligible: those of its
/// logs, or none where its receipt is no action receipt.
pub open spec fn outcome_rows_spec(o: ReceiptOutcomeV, ts: u64) -> RowsV {
    if o.is_action {
        logs_rows_spec(o.logs, o.receipt_id, ts)
    } else {
        rows_empty()
    }
}

/// The records one outcome contributes to the block: none where the filter
/// rejects it.
pub open spec fn outcome_contribution(
    watch: Option<Seq<Seq<char>>>,
    o: ReceiptOutcomeV,
    ts: u64,
) -> RowsV {
    if should_save_spec(watch, o) {
        outcome_rows_spec(o, ts)
    } else {
        rows_empty()
    }
}

/// Whether one outcome makes the block abort: it passes the filter, its
/// receipt is an action receipt, and one of its logs overflows.
pub open spec fn outcome_overflow(watch: Option<Seq<Seq<char>>>, o: ReceiptOutcomeV) -> bool {
    should_save_spec(watch, o) && o.is_action && logs_overflow(o.logs)
}

/// The records of a sequence of outcomes, in delivery order.
pub open spec fn outcomes_rows_spec(
    os: Seq<ReceiptOutcomeV>,
    watch: Option<Seq<Seq<char>>>,
    ts: u64,
) -> RowsV
    decreases os.len(),
{
    if os.len() == 0 {
        rows_empty()
    } else {
        rows_add(
            outcomes_rows_spec(os.drop_last(), watch, ts),
            outcome_contribution(watch, os.last(), ts),
        )
    }
}

/// The records a whole block stages.
pub open spec fn block_rows_spec(watch: Option<Seq<Seq<char>>>, b: BlockV) -> RowsV {
    outcomes_rows_spec(b.outcomes, watch, b.timestamp)
}

/// Whether a block aborts on a rank overflow.
pub open spec fn block_overflow(watch: Option<Seq<Seq<char>>>, b: BlockV) -> bool {
    exists|i: int| 0 <= i < b.outcomes.len() && outcome_overflow(watch, b.outcomes[i])
}

/// The store after a block commits: every staged record appended and the
/// block's height checkpointed, together.
pub open spec fn committed_store(s: StoreV, watch: Option<Seq<Seq<char>>>, b: BlockV) -> StoreV {
    let rows = block_rows_spec(watch, b);
    StoreV {
        market: s.market + rows.market,
        order: s.order + rows.order,
        fill: s.fill + rows.fill,
        cancel: s.cancel + rows.cancel,
        checkpoints: s.checkpoints.push(b.height),
    }
}

/// The terminal state of one block's transaction.
#[derive(Clone, Copy, Debug, PartialEq, Eq, Structural)]
pub enum ProcessOutcome {
    /// Records and checkpoint are durable.
    Committed,
    /// The height was committed before; the whole block rolled back.
    DuplicateSkipped,
    /// A fatal mapping fault; the whole block rolled back.
    Aborted(MapError),
}

/// What processing one block does to the store: a duplicate height or a
/// mapping fault leaves it untouched; otherwise every record and the
/// checkpoint land together.
pub open spec fn process_spec(watch: Option<Seq<Seq<char>>>, s: StoreV, b: BlockV) -> (
    StoreV,
    ProcessOutcome,
) {
    if block_overflow(watch, b) {
        (s, ProcessOutcome::Aborted(MapError::RankOverflow))
    } else if s.checkpoints.contains(b.height) {
        (s, ProcessOutcome::DuplicateSkipped)
    } else {
        (committed_store(s, watch, b), ProcessOutcome::Committed)
    }
}

// ---------------------------------------------------------------------------
// Execution.
// ---------------------------------------------------------------------------

/// Adding no records changes nothing.
pub proof fn lemma_rows_add_empty(a: RowsV)
    ensures
        rows_add(a, rows_empty()) == a,
{
    assert(rows_add(a, rows_empty()).market =~= a.market);
    assert(rows_add(a, rows_empty()).order =~= a.order);
    assert(rows_add(a, rows_empty()).fill =~= a.fill);
    assert(rows_add(a, rows_empty()).cancel =~= a.cancel);
}

/// Stages the records of one decoded event, unless the receipt is no action
/// receipt. A rank overflow is fatal: nothing is staged.
pub fn save_event(
    batch: &mut StagedBatch,
    ev: DexEvent,
    receipt: &ReceiptOutcome,
    block_timestamp_ns: u64,
) -> (r: Result<(), MapError>)
    ensures
        !receipt@.is_action ==> r is Ok && final(batch)@ == old(batch)@,
        receipt@.is_action && event_overflow(ev@) ==> r == Err::<(), MapError>(
            MapError::RankOverflow,
        ) && final(batch)@ == old(batch)@,
        receipt@.is_action && !event_overflow(ev@) ==> r is Ok && final(batch)@ == rows_add(
            old(batch)@,
            event_rows_spec(ev@, receipt@.receipt_id, block_timestamp_ns),
        ),
{
    if !receipt.is_action {
        return Ok(());
    }
    let receipt_id = receipt.receipt_id.clone();
    match ev {
        DexEvent::NewMarket(m) => save_new_market_event(batch, receipt_id, block_timestamp_ns, m),
        DexEvent::Order(o) => save_new_order_event(batch, receipt_id, block_timestamp_ns, o),
        DexEvent::Fill(f) => save_new_fill_event(batch, receipt_id, block_timestamp_ns, f),
        DexEvent::Cancel(c) => save_new_cancel_event(batch, receipt_id, block_timestamp_ns, c),
    }
}

/// Decodes every log of one eligible outcome and stages the mapped records.
/// A log that decodes to no event is skipped; the rest of the outcome still
/// lands. A rank overflow is fatal: the batch is left as it was.
pub fn save_execution_outcome(
    batch: &mut StagedBatch,
    o: &ReceiptOutcome,
    block_timestamp_ns: u64,
) -> (r: Result<(), MapError>)
    ensures
        !(o@.is_action && logs_overflow(o@.logs)) ==> r is Ok && final(batch)@ == rows_add(
            old(batch)@,
            outcome_rows_spec(o@, block_timestamp_ns),
        ),
        o@.is_action && logs_overflow(o@.logs) ==> r == Err::<(), MapError>(MapError::RankOverflow)
            && final(batch)@ == old(batch)@,
{
    let mut staged = StagedBatch::new();
    let mut i: usize = 0;
    while i < o.logs.len()
        invariant
            0 <= i <= o.logs@.len(),
            staged@ == (if o@.is_action {
                logs_rows_spec(o@.logs.take(i as int), o@.receipt_id, block_timestamp_ns)
            } else {
                rows_empty()
            }),
            o@.is_action ==> forall|j: int| 0 <= j < i ==> !log_overflow(o@.logs[j]),
        decreases o.logs@.len() - i,
    {
        let ghost prev = staged@;
        let log = &o.logs[i];
        if is_event_log(log.as_str()) {
            match parse_dex_event(log.as_str()) {
                Ok(ev) => {
                    match save_event(&mut staged, ev, o, block_timestamp_ns) {
                        Ok(()) => {},
                        Err(e) => {
                            proof {
                                assert(log_overflow(o@.logs[i as int]));
                                assert(logs_overflow(o@.logs));
                            }
                            return Err(e);
                        },
                    }
                },
                Err(_) => {},
            }
        }
        i += 1;
        proof {
            let ls = o@.logs;
            assert(ls.take(i as int).drop_last() =~= ls.take(i as int - 1));
            assert(ls.take(i as int).last() == ls[i as int - 1]);
            if o@.is_action {
                if decoded_log(ls[i as int - 1]) is None {
                    lemma_rows_add_empty(prev);
                }
            }
        }
    }
    proof {
        assert(o@.logs.take(o@.logs.len() as int) =~= o@.logs);
    }
    batch.absorb(staged);
    Ok(())
}

/// One worker: the allow-list of contracts to watch and the store it writes.
pub struct Worker {
    pub contract_ids: Option<Vec<String>>,
    pub store: Store,
}

impl Worker {
    /// A worker over the given allow-list and store.
    pub fn new(contract_ids: Option<Vec<String>>, store: Store) -> (r: Worker)
        ensures
            r.contract_ids == contract_ids,
            r.store == store,
    {
        Worker { contract_ids, store }
    }

    /// Applies the outcome filter: rejects failed and unknown outcomes,
    /// outcomes without logs, and, where an allow-list was configured,
    /// outcomes of contracts not on it.
    pub fn should_save(&self, o: &ReceiptOutcome) -> (r: bool)
        ensures
            r == should_save_spec(watch_view(self.contract_ids), o@),
    {
        match o.status {
            ExecutionStatus::Failure => {
                return false;
            },
            ExecutionStatus::Unknown => {
                return false;
            },
            ExecutionStatus::Success => {},
        }
        if o.logs.len() == 0 {
            return false;
        }
        match &self.contract_ids {
            Some(contracts_to_watch) => {
                proof {
                    assert(self.contract_ids matches Some(w) && w == *contracts_to_watch);
                    assert(watch_view(self.contract_ids) == Some(
                        contracts_to_watch@.map_values(|s: String| s@),
                    ));
                }
                let mut i: usize = 0;
                while i < contracts_to_watch.len()
                    invariant
                        0 <= i <= contracts_to_watch@.len(),
                        forall|j: int|
                            0 <= j < i ==> contracts_to_watch@[j]@ != o@.receiver_id,
                        !(o@.status is Failure),
                        !(o@.status is Unknown),
                        o@.logs.len() > 0,
                        watch_view(self.contract_ids) == Some(
                            contracts_to_watch@.map_values(|s: String| s@),
                        ),
                    decreases contracts_to_watch@.len() - i,
                {
                    if contracts_to_watch[i] == o.receiver_id {
                        proof {
                            let l = contracts_to_watch@.map_values(|s: String| s@);
                            assert(l[i as int] == o@.receiver_id);
                            assert(l.contains(o@.receiver_id));
                        }
                        return true;
                    }
                    i += 1;
                }
                proof {
                    let l = contracts_to_watch@.map_values(|s: String| s@);
                    assert(!l.contains(o@.receiver_id)) by {
                        if l.contains(o@.receiver_id) {
                            let k = choose|k: int| 0 <= k < l.len() && l[k] == o@.receiver_id;
                            assert(contracts_to_watch@[k]@ == o@.receiver_id);
                            assert(false);
                        }
                    }
                }
                false
            },
            None => true,
        }
    }

    /// Processes one block as a single transaction: filters its outcomes,
    /// decodes and maps their logs, stages the records, and writes the
    /// checkpoint; everything commits together or nothing does. A duplicate
    /// height rolls the whole block back silently; a rank overflow aborts it.
    pub fn process_message(&mut self, msg: &Block) -> (r: ProcessOutcome)
        ensures
            final(self).contract_ids == old(self).contract_ids,
            (final(self).store@, r) == process_spec(
                watch_view(old(self).contract_ids),
                old(self).store@,
                msg@,
            ),
            store_wf(old(self).store@) ==> store_wf(final(self).store@),
    {
        let ghost watch = watch_view(self.contract_ids);
        let ghost ts = msg@.timestamp;
        let mut batch = StagedBatch::new();
        let mut i: usize = 0;
        while i < msg.outcomes.len()
            invariant
                0 <= i <= msg.outcomes@.len(),
                self == old(self),
                batch@ == outcomes_rows_spec(msg@.outcomes.take(i as int), watch, ts),
                forall|j: int| 0 <= j < i ==> !outcome_overflow(watch, msg@.outcomes[j]),
                watch == watch_view(self.contract_ids),
                ts == msg@.timestamp,
            decreases msg.outcomes@.len() - i,
        {
            let ghost prev = batch@;
            let o = &msg.outcomes[i];
            if self.should_save(o) {
                match save_execution_outcome(&mut batch, o, msg.timestamp) {
                    Ok(()) => {},
                    Err(e) => {
                        proof {
                            assert(outcome_overflow(watch, msg@.outcomes[i as int]));
                            assert(block_overflow(watch, msg@));
                        }
                        return ProcessOutcome::Aborted(e);
                    },
                }
            } else {
                proof {
                    lemma_rows_add_empty(prev);
                }
            }
            i += 1;
            proof {
                let os = msg@.outcomes;
                assert(os.take(i as int).drop_last() =~= os.take(i as int - 1));
                assert(os.take(i as int).last() == os[i as int - 1]);
            }
        }
        proof {
            assert(msg@.outcomes.take(msg@.outcomes.len() as int) =~= msg@.outcomes);
            assert(!block_overflow(watch, msg@)) by {
                if block_overflow(watch, msg@) {
                    let k = choose|k: int|
                        0 <= k < msg@.outcomes.len() && outcome_overflow(watch, msg@.outcomes[k]);
                    assert(false);
                }
            }
        }
        match save_latest_processed_block(&mut self.store, msg.height) {
            Err(_) => ProcessOutcome::DuplicateSkipped,
            Ok(()) => {
                self.store.apply_batch(batch);
                ProcessOutcome::Committed
            },
        }
    }
}

/// A worker that watches every contract.
pub fn create_worker(store: Store) -> (r: Worker)
    ensures
        r.contract_ids is None,
        r.store == store,
{
    Worker::new(None, store)
}

/// Splits a block's nanosecond timestamp into whole seconds and the excess
/// nanoseconds, for callers that render it as a calendar time.
pub fn timestamp_parts(block_timestamp_ns: u64) -> (r: (u64, u32))
    ensures
        r.0 == block_timestamp_ns / 1000000000,
        r.1 == block_timestamp_ns % 1000000000,
{
    (block_timestamp_ns / 1000000000, (block_timestamp_ns % 1000000000) as u32)
}

} // verus!
