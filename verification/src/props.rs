//! The pipeline's laws, proved over the same spec functions that the
//! executable functions' contracts use.

use vstd::prelude::*;
use crate::event::{NewCancelDataV, NewFillDataV, NewOrderDataV};
use crate::models::{
    StoreV, rows_empty, store_wf, latest_height, resume_height_spec, cancel_rows_spec,
    fill_rows_spec, order_row_spec,
};
use crate::worker::{
    BlockV, ReceiptOutcomeV, ProcessOutcome, process_spec, committed_store, block_overflow,
    should_save_spec, outcome_contribution, outcomes_rows_spec, log_rows_spec, logs_rows_spec,
    decoded_log, lemma_rows_add_empty,
};

verus! {

/// Idempotent replay: once a block has committed, submitting the same block
/// to the same store again changes nothing and ends as a silent skip.
pub proof fn lemma_idempotent_replay(
    watch: Option<Seq<Seq<char>>>,
    s: StoreV,
    b: BlockV,
    s1: StoreV,
)
    requires
        process_spec(watch, s, b) == (s1, ProcessOutcome::Committed),
    ensures
        process_spec(watch, s1, b) == (s1, ProcessOutcome::DuplicateSkipped),
{
    assert(s1.checkpoints == s.checkpoints.push(b.height));
    assert(s1.checkpoints[s.checkpoints.len() as int] == b.height);
    assert(s1.checkpoints.contains(b.height));
}

/// Atomicity: a block either leaves the store exactly as it was, or commits
/// every staged record and the checkpoint together; nothing in between.
pub proof fn lemma_atomicity(watch: Option<Seq<Seq<char>>>, s: StoreV, b: BlockV)
    ensures
        process_spec(watch, s, b).0 == s || (process_spec(watch, s, b).0 == committed_store(
            s,
            watch,
            b,
        ) && process_spec(watch, s, b).1 == ProcessOutcome::Committed),
        process_spec(watch, s, b).1 == ProcessOutcome::Committed ==> process_spec(
            watch,
            s,
            b,
        ).0.checkpoints == s.checkpoints.push(b.height),
{
}

/// The checkpoint uniqueness constraint survives any block: heights stay
/// pairwise distinct.
pub proof fn lemma_wf_preserved(watch: Option<Seq<Seq<char>>>, s: StoreV, b: BlockV)
    requires
        store_wf(s),
    ensures
        store_wf(process_spec(watch, s, b).0),
{
    if !block_overflow(watch, b) && !s.checkpoints.contains(b.height) {
        let after = process_spec(watch, s, b).0.checkpoints;
        assert forall|i: int, j: int| 0 <= i < j < after.len() implies after[i] != after[j] by {
            if j == after.len() - 1 {
                assert(after[i] == s.checkpoints[i]);
                if s.checkpoints[i] == b.height {
                    assert(s.checkpoints.contains(b.height));
                }
            }
        }
    }
}

/// Committed rows are never lost: whatever a later block does, the records
/// already in a table stay, in their place, and so does every checkpoint.
pub proof fn lemma_append_only(watch: Option<Seq<Seq<char>>>, s: StoreV, b: BlockV, i: int)
    ensures
        0 <= i < s.market.len() ==> process_spec(watch, s, b).0.market[i] == s.market[i],
        0 <= i < s.order.len() ==> process_spec(watch, s, b).0.order[i] == s.order[i],
        0 <= i < s.fill.len() ==> process_spec(watch, s, b).0.fill[i] == s.fill[i],
        0 <= i < s.cancel.len() ==> process_spec(watch, s, b).0.cancel[i] == s.cancel[i],
        0 <= i < s.checkpoints.len() ==> process_spec(watch, s, b).0.checkpoints[i]
            == s.checkpoints[i],
{
}

/// Filter correctness: an outcome the filter rejects — failed or unknown
/// status, no log lines, or a contract off the configured allow-list —
/// contributes no storage records to its block.
pub proof fn lemma_filter_correctness(
    watch: Option<Seq<Seq<char>>>,
    o: ReceiptOutcomeV,
    ts: u64,
)
    requires
        !should_save_spec(watch, o),
    ensures
        outcome_contribution(watch, o, ts) == rows_empty(),
{
}

/// A block none of whose outcomes passes the filter stages nothing at all.
pub proof fn lemma_all_filtered(os: Seq<ReceiptOutcomeV>, watch: Option<Seq<Seq<char>>>, ts: u64)
    requires
        forall|i: int| 0 <= i < os.len() ==> !should_save_spec(watch, os[i]),
    ensures
        outcomes_rows_spec(os, watch, ts) == rows_empty(),
    decreases os.len(),
{
    if os.len() > 0 {
        assert(forall|i: int|
            0 <= i < os.drop_last().len() ==> !should_save_spec(watch, os.drop_last()[i]));
        lemma_all_filtered(os.drop_last(), watch, ts);
        lemma_rows_add_empty(rows_empty());
    }
}

/// Decode tolerance: a log line that decodes to no event — not a candidate,
/// not JSON, or no well-formed event document — contributes no records, and
/// nothing else of its block is disturbed.
pub proof fn lemma_decode_tolerance(l: Seq<char>, receipt_id: Seq<char>, ts: u64)
    requires
        decoded_log(l) is None,
    ensures
        log_rows_spec(l, receipt_id, ts) == rows_empty(),
{
}

/// Decode tolerance, strengthened: a log line that decodes to no event can
/// be struck from an outcome's logs without changing what the outcome
/// stages — the well-formed lines land exactly as they would have alone.
pub proof fn lemma_undecodable_log_removed(
    ls: Seq<Seq<char>>,
    receipt_id: Seq<char>,
    ts: u64,
    i: int,
)
    requires
        0 <= i < ls.len(),
        decoded_log(ls[i]) is None,
    ensures
        logs_rows_spec(ls, receipt_id, ts) == logs_rows_spec(ls.remove(i), receipt_id, ts),
    decreases ls.len(),
{
    if i == ls.len() - 1 {
        assert(ls.remove(i) =~= ls.drop_last());
        lemma_rows_add_empty(logs_rows_spec(ls.drop_last(), receipt_id, ts));
    } else {
        assert(ls.remove(i).drop_last() =~= ls.drop_last().remove(i));
        assert(ls.remove(i).last() == ls.last());
        assert(ls.drop_last()[i] == ls[i]);
        lemma_undecodable_log_removed(ls.drop_last(), receipt_id, ts, i);
    }
}

/// Filter correctness, strengthened: an outcome the filter rejects can be
/// struck from the block without changing what the block stages.
pub proof fn lemma_filtered_outcome_removed(
    os: Seq<ReceiptOutcomeV>,
    watch: Option<Seq<Seq<char>>>,
    ts: u64,
    i: int,
)
    requires
        0 <= i < os.len(),
        !should_save_spec(watch, os[i]),
    ensures
        outcomes_rows_spec(os, watch, ts) == outcomes_rows_spec(os.remove(i), watch, ts),
    decreases os.len(),
{
    if i == os.len() - 1 {
        assert(os.remove(i) =~= os.drop_last());
        lemma_rows_add_empty(outcomes_rows_spec(os.drop_last(), watch, ts));
    } else {
        assert(os.remove(i).drop_last() =~= os.drop_last().remove(i));
        assert(os.remove(i).last() == os.last());
        assert(os.drop_last()[i] == os[i]);
        lemma_filtered_outcome_removed(os.drop_last(), watch, ts, i);
    }
}

/// Batch expansion: one cancel event yields exactly one cancel row per
/// cancelled order, all sharing the event's receipt and timestamp.
pub proof fn lemma_batch_expansion(receipt_id: Seq<char>, ts: u64, ev: NewCancelDataV)
    ensures
        cancel_rows_spec(receipt_id, ts, ev).len() == ev.cancels.len(),
        forall|i: int|
            0 <= i < ev.cancels.len() ==> cancel_rows_spec(receipt_id, ts, ev)[i].receipt_id
                == receipt_id && cancel_rows_spec(receipt_id, ts, ev)[i].created_at == ts,
{
}

/// Numeric fidelity: a fill's price and quantity texts reach their rows
/// character for character — no numeric field ever passes through a binary
/// floating-point representation.
pub proof fn lemma_numeric_fidelity(
    receipt_id: Seq<char>,
    ts: u64,
    ev: NewFillDataV,
    i: int,
)
    requires
        0 <= i < ev.fills.len(),
    ensures
        fill_rows_spec(receipt_id, ts, ev)[i].fill_price == ev.fills[i].fill_price,
        fill_rows_spec(receipt_id, ts, ev)[i].fill_qty == ev.fills[i].fill_qty,
        fill_rows_spec(receipt_id, ts, ev)[i].quote_qty == ev.fills[i].quote_qty,
        fill_rows_spec(receipt_id, ts, ev)[i].maker_rebate == ev.fills[i].maker_rebate,
{
}

/// Rank sentinel: an order that did not post stores a rank of exactly `-1`;
/// one that posted stores its rank as it is.
pub proof fn lemma_rank_sentinel(receipt_id: Seq<char>, ts: u64, ev: NewOrderDataV)
    ensures
        ev.price_rank is None ==> order_row_spec(receipt_id, ts, ev).price_rank == -1,
        ev.price_rank matches Some(v) ==> order_row_spec(receipt_id, ts, ev).price_rank == v,
{
}

/// The highest checkpoint after a commit is the committed height, where the
/// block is no older than everything committed before.
pub proof fn lemma_latest_after_commit(cps: Seq<u64>, h: u64)
    requires
        forall|i: int| 0 <= i < cps.len() ==> cps[i] <= h,
    ensures
        latest_height(cps.push(h)) == h,
{
    assert(cps.push(h).drop_last() =~= cps);
    assert(cps.push(h).last() == h);
    lemma_latest_le(cps, h);
}

/// A bound on every checkpoint bounds the latest height too.
pub proof fn lemma_latest_le(cps: Seq<u64>, h: u64)
    requires
        forall|i: int| 0 <= i < cps.len() ==> cps[i] <= h,
    ensures
        latest_height(cps) <= h,
    decreases cps.len(),
{
    if cps.len() > 0 {
        assert(forall|i: int| 0 <= i < cps.drop_last().len() ==> cps.drop_last()[i] <= h);
        lemma_latest_le(cps.drop_last(), h);
    }
}

/// The latest height bounds every checkpoint.
pub proof fn lemma_latest_is_bound(cps: Seq<u64>)
    ensures
        forall|i: int| 0 <= i < cps.len() ==> cps[i] <= latest_height(cps),
    decreases cps.len(),
{
    if cps.len() > 0 {
        lemma_latest_is_bound(cps.drop_last());
        assert(forall|i: int| 0 <= i < cps.len() - 1 ==> cps[i] == cps.drop_last()[i]);
    }
}

/// Resume point: with no prior checkpoint the pipeline starts at zero, or at
/// the operator's override; after height `h` commits on top of older
/// checkpoints, a restart without an override resumes at `h + 1` — the
/// committed height is never requested again.
pub proof fn lemma_resume_point(override_height: Option<u64>, cps: Seq<u64>, h: u64)
    ensures
        cps.len() == 0 && override_height is None ==> resume_height_spec(override_height, cps)
            == 0,
        (cps.len() == 0 && override_height is Some) ==> resume_height_spec(override_height, cps)
            == override_height.unwrap(),
        (forall|i: int| 0 <= i < cps.len() ==> cps[i] <= h) && h < u64::MAX
            ==> resume_height_spec(None, cps.push(h)) == h + 1,
{
    if forall|i: int| 0 <= i < cps.len() ==> cps[i] <= h {
        lemma_latest_after_commit(cps, h);
    }
}

/// The resume point never lies at or below a committed height: replay is
/// prevented at the source, whatever the override says beneath it.
pub proof fn lemma_resume_above_committed(override_height: Option<u64>, cps: Seq<u64>, i: int)
    requires
        0 <= i < cps.len(),
        latest_height(cps) < u64::MAX,
    ensures
        resume_height_spec(override_height, cps) > cps[i],
{
    lemma_latest_is_bound(cps);
}

} // verus!
