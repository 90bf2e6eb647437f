use tonic_indexer::models::{
    Store, StagedBatch, MapError, StoreError, save_new_cancel_event, save_new_fill_event,
    save_new_market_event, save_new_order_event, get_latest_processed_block,
    save_latest_processed_block, resume_height, side_to_string, order_type_to_string,
};
use tonic_indexer::event::{
    NewMarketData, NewOrderData, NewFillData, FillData, NewCancelData, CancelData, Side, OrderType,
};
use tonic_indexer::worker::{
    Worker, Block, ReceiptOutcome, ExecutionStatus, ProcessOutcome, create_worker,
    timestamp_parts,
};

fn outcome(receipt: &str, contract: &str, logs: Vec<&str>) -> ReceiptOutcome {
    ReceiptOutcome {
        receipt_id: receipt.to_string(),
        receiver_id: contract.to_string(),
        status: ExecutionStatus::Success,
        logs: logs.into_iter().map(|l| l.to_string()).collect(),
        is_action: true,
    }
}

fn market_log() -> String {
    "{\"event\":\"new_market\",\"data\":{\"market_id\":[4,48,94,43,36,115,240,88],\
     \"base_token\":\"usdc.token\",\"quote_token\":\"wrap.near\"}}"
        .to_string()
}

fn cancel_log_three() -> String {
    "{\"event\":\"new_cancel\",\"data\":{\"market_id\":[7],\"cancels\":[\
     {\"order_id\":[1],\"refund_amount\":\"5\",\"refund_token\":\"t\",\
      \"cancelled_qty\":\"2\",\"price_rank\":0},\
     {\"order_id\":[2],\"refund_amount\":\"6\",\"refund_token\":\"t\",\
      \"cancelled_qty\":\"3\",\"price_rank\":1},\
     {\"order_id\":[3],\"refund_amount\":\"7\",\"refund_token\":\"t\",\
      \"cancelled_qty\":\"4\",\"price_rank\":2}]}}"
        .to_string()
}

#[test]
fn commits_a_block_and_its_checkpoint_together() {
    let mut w = create_worker(Store::new());
    let b = Block {
        height: 10,
        timestamp: 1_234_567_890_123,
        outcomes: vec![outcome("r1", "dex.near", vec![&market_log()])],
    };
    assert_eq!(w.process_message(&b), ProcessOutcome::Committed);
    assert_eq!(w.store.market_events.len(), 1);
    assert_eq!(w.store.market_events[0].receipt_id, "r1".to_string());
    assert_eq!(w.store.market_events[0].created_at, 1_234_567_890_123);
    assert_eq!(w.store.checkpoints.len(), 1);
    assert_eq!(w.store.checkpoints[0].block_height, 10);
}

#[test]
fn base58_identifiers_are_really_encoded() {
    let mut w = create_worker(Store::new());
    let b = Block { height: 1, timestamp: 0, outcomes: vec![outcome("r", "c", vec![&market_log()])] };
    assert_eq!(w.process_message(&b), ProcessOutcome::Committed);
    // The byte string [4, 48, 94, 43, 36, 115, 240, 88] in base-58.
    assert_eq!(w.store.market_events[0].market_id, "he11owor1d".to_string());
    assert_eq!(
        w.store.market_events[0].market_id,
        bs58::encode(&[4u8, 48, 94, 43, 36, 115, 240, 88]).into_string()
    );
}

#[test]
fn replaying_a_committed_block_changes_nothing() {
    let mut w = create_worker(Store::new());
    let b = Block {
        height: 5,
        timestamp: 7,
        outcomes: vec![outcome("r1", "dex.near", vec![&market_log()])],
    };
    assert_eq!(w.process_message(&b), ProcessOutcome::Committed);
    let rows_before = w.store.market_events.len();
    let cps_before = w.store.checkpoints.len();
    assert_eq!(w.process_message(&b), ProcessOutcome::DuplicateSkipped);
    assert_eq!(w.store.market_events.len(), rows_before);
    assert_eq!(w.store.checkpoints.len(), cps_before);
}

#[test]
fn an_overflowing_rank_aborts_the_whole_block() {
    // 2147483648 fits a u64 but not an i32 column: the block must abort with
    // nothing written, though another outcome of it was fine.
    let bad = "{\"event\":\"new_cancel\",\"data\":{\"market_id\":[7],\"cancels\":[\
               {\"order_id\":[1],\"refund_amount\":\"5\",\"refund_token\":\"t\",\
                \"cancelled_qty\":\"2\",\"price_rank\":2147483648}]}}";
    let mut w = create_worker(Store::new());
    let b = Block {
        height: 3,
        timestamp: 0,
        outcomes: vec![
            outcome("good", "c", vec![&market_log()]),
            outcome("bad", "c", vec![bad]),
        ],
    };
    assert_eq!(w.process_message(&b), ProcessOutcome::Aborted(MapError::RankOverflow));
    assert_eq!(w.store.market_events.len(), 0);
    assert_eq!(w.store.cancel_events.len(), 0);
    assert_eq!(w.store.checkpoints.len(), 0);
}

#[test]
fn filtered_outcomes_yield_no_records() {
    let mut failed = outcome("r1", "c", vec![&market_log()]);
    failed.status = ExecutionStatus::Failure;
    let mut unknown = outcome("r2", "c", vec![&market_log()]);
    unknown.status = ExecutionStatus::Unknown;
    let no_logs = outcome("r3", "c", vec![]);
    let mut w = create_worker(Store::new());
    let b = Block { height: 1, timestamp: 0, outcomes: vec![failed, unknown, no_logs] };
    assert_eq!(w.process_message(&b), ProcessOutcome::Committed);
    assert_eq!(w.store.market_events.len(), 0);
    assert_eq!(w.store.checkpoints.len(), 1);
}

#[test]
fn the_allow_list_filters_other_contracts() {
    let mut w = Worker::new(Some(vec!["dex.near".to_string()]), Store::new());
    let b = Block {
        height: 1,
        timestamp: 0,
        outcomes: vec![
            outcome("r1", "other.near", vec![&market_log()]),
            outcome("r2", "dex.near", vec![&market_log()]),
        ],
    };
    assert_eq!(w.process_message(&b), ProcessOutcome::Committed);
    assert_eq!(w.store.market_events.len(), 1);
    assert_eq!(w.store.market_events[0].receipt_id, "r2".to_string());
}

#[test]
fn should_save_is_the_filter() {
    let w = Worker::new(Some(vec!["dex.near".to_string()]), Store::new());
    assert!(w.should_save(&outcome("r", "dex.near", vec!["log"])));
    assert!(!w.should_save(&outcome("r", "other.near", vec!["log"])));
    assert!(!w.should_save(&outcome("r", "dex.near", vec![])));
    let mut failed = outcome("r", "dex.near", vec!["log"]);
    failed.status = ExecutionStatus::Failure;
    assert!(!w.should_save(&failed));
    let all = create_worker(Store::new());
    assert!(all.should_save(&outcome("r", "anyone.near", vec!["log"])));
}

#[test]
fn non_action_receipts_yield_no_records() {
    let mut o = outcome("r", "c", vec![&market_log()]);
    o.is_action = false;
    let mut w = create_worker(Store::new());
    let b = Block { height: 1, timestamp: 0, outcomes: vec![o] };
    assert_eq!(w.process_message(&b), ProcessOutcome::Committed);
    assert_eq!(w.store.market_events.len(), 0);
}

#[test]
fn a_malformed_log_is_skipped_and_the_block_still_commits() {
    let mut w = create_worker(Store::new());
    let b = Block {
        height: 2,
        timestamp: 0,
        outcomes: vec![outcome("r1", "c", vec!["this is not an event document", &market_log()])],
    };
    assert_eq!(w.process_message(&b), ProcessOutcome::Committed);
    assert_eq!(w.store.market_events.len(), 1);
    assert_eq!(w.store.checkpoints.len(), 1);
}

#[test]
fn decimal_texts_round_trip_unchanged() {
    let fill = "{\"event\":\"new_fill\",\"data\":{\"market_id\":[3],\"order_id\":[4],\"fills\":[\
                {\"maker_order_id\":[5],\"fill_qty\":\"1000.00000001\",\
                 \"fill_price\":\"1.23456789\",\"quote_qty\":\"1234.56\",\
                 \"maker_rebate\":\"0.001\",\"side\":\"buy\",\
                 \"taker_account_id\":\"t.near\",\"maker_account_id\":\"m.near\",\
                 \"maker_price_rank\":1}]}}";
    let mut w = create_worker(Store::new());
    let b = Block { height: 1, timestamp: 0, outcomes: vec![outcome("r", "c", vec![fill])] };
    assert_eq!(w.process_message(&b), ProcessOutcome::Committed);
    assert_eq!(w.store.fill_events.len(), 1);
    assert_eq!(w.store.fill_events[0].fill_price, "1.23456789".to_string());
    assert_eq!(w.store.fill_events[0].fill_qty, "1000.00000001".to_string());
    assert!(w.store.fill_events[0].is_bid);
}

#[test]
fn an_unposted_order_stores_rank_minus_one() {
    let mut batch = StagedBatch::new();
    let ev = NewOrderData {
        account_id: "alice.near".to_string(),
        order_id: vec![9],
        market_id: vec![1],
        limit_price: "2.50".to_string(),
        quantity: "10".to_string(),
        side: Side::Buy,
        order_type: OrderType::ImmediateOrCancel,
        taker_fee: "0.01".to_string(),
        referrer_id: None,
        referrer_rebate: "0".to_string(),
        is_swap: false,
        price_rank: None,
    };
    assert!(save_new_order_event(&mut batch, "r".to_string(), 5, ev).is_ok());
    assert_eq!(batch.order_events.len(), 1);
    assert_eq!(batch.order_events[0].price_rank, -1);
    assert_eq!(batch.order_events[0].order_type, "ioc".to_string());
    assert_eq!(batch.order_events[0].side, "buy".to_string());
}

#[test]
fn a_posted_order_stores_its_rank() {
    let mut batch = StagedBatch::new();
    let ev = NewOrderData {
        account_id: "a".to_string(),
        order_id: vec![1],
        market_id: vec![1],
        limit_price: "1".to_string(),
        quantity: "1".to_string(),
        side: Side::Sell,
        order_type: OrderType::Limit,
        taker_fee: "0".to_string(),
        referrer_id: Some("ref.near".to_string()),
        referrer_rebate: "1".to_string(),
        is_swap: false,
        price_rank: Some(7),
    };
    assert!(save_new_order_event(&mut batch, "r".to_string(), 5, ev).is_ok());
    assert_eq!(batch.order_events[0].price_rank, 7);
    assert_eq!(batch.order_events[0].referrer_id, Some("ref.near".to_string()));
}

#[test]
fn an_order_rank_over_the_column_width_is_refused() {
    let mut batch = StagedBatch::new();
    let ev = NewOrderData {
        account_id: "a".to_string(),
        order_id: vec![1],
        market_id: vec![1],
        limit_price: "1".to_string(),
        quantity: "1".to_string(),
        side: Side::Buy,
        order_type: OrderType::Limit,
        taker_fee: "0".to_string(),
        referrer_id: None,
        referrer_rebate: "0".to_string(),
        is_swap: false,
        price_rank: Some((i32::MAX as u64) + 1),
    };
    assert_eq!(
        save_new_order_event(&mut batch, "r".to_string(), 0, ev),
        Err(MapError::RankOverflow)
    );
    assert_eq!(batch.order_events.len(), 0);
}

#[test]
fn one_cancel_log_with_three_orders_yields_three_rows() {
    let mut w = create_worker(Store::new());
    let b = Block {
        height: 9,
        timestamp: 77,
        outcomes: vec![outcome("receipt-x", "c", vec![&cancel_log_three()])],
    };
    assert_eq!(w.process_message(&b), ProcessOutcome::Committed);
    assert_eq!(w.store.cancel_events.len(), 3);
    for row in &w.store.cancel_events {
        assert_eq!(row.receipt_id, "receipt-x".to_string());
        assert_eq!(row.created_at, 77);
        assert_eq!(row.market_id, bs58::encode(&[7u8]).into_string());
    }
    assert_eq!(w.store.cancel_events[0].price_rank, 0);
    assert_eq!(w.store.cancel_events[2].price_rank, 2);
}

#[test]
fn batch_mappers_stage_rows_directly() {
    let mut batch = StagedBatch::new();
    let m = NewMarketData {
        market_id: vec![1],
        base_token: "b".to_string(),
        quote_token: "q".to_string(),
    };
    assert!(save_new_market_event(&mut batch, "r".to_string(), 1, m).is_ok());
    let f = NewFillData {
        market_id: vec![2],
        order_id: vec![3],
        fills: vec![FillData {
            maker_order_id: vec![4],
            fill_qty: "1".to_string(),
            fill_price: "2".to_string(),
            quote_qty: "2".to_string(),
            maker_rebate: "0".to_string(),
            side: Side::Sell,
            taker_account_id: "t".to_string(),
            maker_account_id: "m".to_string(),
            maker_price_rank: 5,
        }],
    };
    assert!(save_new_fill_event(&mut batch, "r".to_string(), 1, f).is_ok());
    let c = NewCancelData {
        market_id: vec![5],
        cancels: vec![CancelData {
            order_id: vec![6],
            refund_amount: "1".to_string(),
            refund_token: "t".to_string(),
            cancelled_qty: "1".to_string(),
            price_rank: 0,
        }],
    };
    assert!(save_new_cancel_event(&mut batch, "r".to_string(), 1, c).is_ok());
    assert_eq!(batch.market_events.len(), 1);
    assert_eq!(batch.fill_events.len(), 1);
    assert_eq!(batch.cancel_events.len(), 1);
    assert!(!batch.fill_events[0].is_bid);
    assert_eq!(batch.fill_events[0].maker_price_rank, 5);
    assert_eq!(batch.fill_events[0].taker_order_id, bs58::encode(&[3u8]).into_string());
}

#[test]
fn checkpoints_refuse_duplicates() {
    let mut store = Store::new();
    assert!(save_latest_processed_block(&mut store, 4).is_ok());
    assert_eq!(save_latest_processed_block(&mut store, 4), Err(StoreError::DuplicateHeight));
    assert!(save_latest_processed_block(&mut store, 5).is_ok());
    assert_eq!(store.checkpoints.len(), 2);
}

#[test]
fn the_latest_checkpoint_is_the_highest() {
    let mut store = Store::new();
    assert_eq!(get_latest_processed_block(&store), 0);
    save_latest_processed_block(&mut store, 3).unwrap();
    save_latest_processed_block(&mut store, 9).unwrap();
    save_latest_processed_block(&mut store, 6).unwrap();
    assert_eq!(get_latest_processed_block(&store), 9);
}

#[test]
fn the_resume_point_never_replays_a_committed_height() {
    let mut store = Store::new();
    assert_eq!(resume_height(None, &store), 0);
    assert_eq!(resume_height(Some(42), &store), 42);
    save_latest_processed_block(&mut store, 7).unwrap();
    assert_eq!(resume_height(None, &store), 8);
    assert_eq!(resume_height(Some(3), &store), 8);
    assert_eq!(resume_height(Some(100), &store), 100);
}

#[test]
fn timestamps_split_into_seconds_and_nanos() {
    assert_eq!(timestamp_parts(1_500_000_000_123_456_789), (1_500_000_000, 123_456_789));
    assert_eq!(timestamp_parts(999), (0, 999));
}

#[test]
fn encoding_texts_match_the_storage_convention() {
    assert_eq!(side_to_string(Side::Buy), "buy".to_string());
    assert_eq!(side_to_string(Side::Sell), "sell".to_string());
    assert_eq!(order_type_to_string(OrderType::Limit), "limit".to_string());
    assert_eq!(order_type_to_string(OrderType::ImmediateOrCancel), "ioc".to_string());
    assert_eq!(order_type_to_string(OrderType::PostOnly), "postOnly".to_string());
    assert_eq!(order_type_to_string(OrderType::FillOrKill), "fillOrKill".to_string());
    assert_eq!(order_type_to_string(OrderType::Market), "market".to_string());
}

#[test]
fn blocks_for_different_heights_accumulate() {
    let mut w = create_worker(Store::new());
    for h in 1..=3u64 {
        let b = Block {
            height: h,
            timestamp: h * 10,
            outcomes: vec![outcome("r", "c", vec![&market_log()])],
        };
        assert_eq!(w.process_message(&b), ProcessOutcome::Committed);
    }
    assert_eq!(w.store.market_events.len(), 3);
    assert_eq!(w.store.checkpoints.len(), 3);
    assert_eq!(get_latest_processed_block(&w.store), 3);
    assert_eq!(resume_height(None, &w.store), 4);
}
