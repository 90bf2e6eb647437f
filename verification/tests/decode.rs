use tonic_indexer::event::{
    is_event_log, extract_event_str, parse_dex_event, DecodeError, DexEvent, Side, OrderType,
};

#[test]
fn every_log_line_is_a_candidate() {
    assert!(is_event_log(""));
    assert!(is_event_log("plain text"));
    assert!(is_event_log("{\"event\":\"new_market\"}"));
}

#[test]
fn payload_is_the_whole_line() {
    assert_eq!(extract_event_str("abc"), "abc".to_string());
    assert_eq!(extract_event_str(""), "".to_string());
}

#[test]
fn decodes_a_market_event() {
    let doc = "{\"event\":\"new_market\",\"data\":{\"market_id\":[1,2,3],\
               \"base_token\":\"usdc.token\",\"quote_token\":\"wrap.near\"}}";
    match parse_dex_event(doc) {
        Ok(DexEvent::NewMarket(m)) => {
            assert_eq!(m.market_id, vec![1u8, 2, 3]);
            assert_eq!(m.base_token, "usdc.token".to_string());
            assert_eq!(m.quote_token, "wrap.near".to_string());
        }
        other => panic!("expected a market event, got {:?}", other.is_ok()),
    }
}

#[test]
fn decodes_an_order_event() {
    let doc = "{\"event\":\"new_order\",\"data\":{\
               \"account_id\":\"alice.near\",\
               \"order_id\":[9,8],\
               \"market_id\":[1],\
               \"limit_price\":\"2.50\",\
               \"quantity\":\"10\",\
               \"side\":\"buy\",\
               \"order_type\":\"limit\",\
               \"taker_fee\":\"0.01\",\
               \"referrer_id\":null,\
               \"referrer_rebate\":\"0\",\
               \"is_swap\":false,\
               \"price_rank\":42}}";
    match parse_dex_event(doc) {
        Ok(DexEvent::Order(o)) => {
            assert_eq!(o.account_id, "alice.near".to_string());
            assert_eq!(o.order_id, vec![9u8, 8]);
            assert_eq!(o.limit_price, "2.50".to_string());
            assert_eq!(o.side, Side::Buy);
            assert_eq!(o.order_type, OrderType::Limit);
            assert_eq!(o.referrer_id, None);
            assert!(!o.is_swap);
            assert_eq!(o.price_rank, Some(42));
        }
        other => panic!("expected an order event, got {:?}", other.is_ok()),
    }
}

#[test]
fn order_without_rank_decodes_to_none() {
    let doc = "{\"event\":\"new_order\",\"data\":{\
               \"account_id\":\"a\",\"order_id\":[1],\"market_id\":[1],\
               \"limit_price\":\"1\",\"quantity\":\"1\",\"side\":\"sell\",\
               \"order_type\":\"market\",\"taker_fee\":\"0\",\
               \"referrer_rebate\":\"0\",\"is_swap\":true,\"price_rank\":null}}";
    match parse_dex_event(doc) {
        Ok(DexEvent::Order(o)) => {
            assert_eq!(o.price_rank, None);
            assert_eq!(o.side, Side::Sell);
            assert_eq!(o.order_type, OrderType::Market);
            assert_eq!(o.referrer_id, None);
        }
        other => panic!("expected an order event, got {:?}", other.is_ok()),
    }
}

#[test]
fn not_json_is_invalid() {
    assert_eq!(parse_dex_event("hello there").unwrap_err(), DecodeError::InvalidJson);
    assert_eq!(parse_dex_event("").unwrap_err(), DecodeError::InvalidJson);
}

#[test]
fn json_without_an_event_is_malformed() {
    assert_eq!(parse_dex_event("{\"a\":1}").unwrap_err(), DecodeError::MalformedEvent);
    assert_eq!(parse_dex_event("[1,2,3]").unwrap_err(), DecodeError::MalformedEvent);
    assert_eq!(
        parse_dex_event("{\"event\":\"bogus\",\"data\":{}}").unwrap_err(),
        DecodeError::MalformedEvent
    );
    // A missing field makes the kind's data malformed.
    assert_eq!(
        parse_dex_event("{\"event\":\"new_market\",\"data\":{\"market_id\":[1]}}").unwrap_err(),
        DecodeError::MalformedEvent
    );
}

#[test]
fn byte_arrays_are_checked() {
    // 256 is no byte.
    let doc = "{\"event\":\"new_market\",\"data\":{\"market_id\":[256],\
               \"base_token\":\"b\",\"quote_token\":\"q\"}}";
    assert_eq!(parse_dex_event(doc).unwrap_err(), DecodeError::MalformedEvent);
    // A fractional number is no byte either.
    let doc = "{\"event\":\"new_market\",\"data\":{\"market_id\":[1.5],\
               \"base_token\":\"b\",\"quote_token\":\"q\"}}";
    assert_eq!(parse_dex_event(doc).unwrap_err(), DecodeError::MalformedEvent);
}

#[test]
fn ranks_longer_than_nineteen_digits_are_malformed() {
    let doc = "{\"event\":\"new_order\",\"data\":{\
               \"account_id\":\"a\",\"order_id\":[1],\"market_id\":[1],\
               \"limit_price\":\"1\",\"quantity\":\"1\",\"side\":\"buy\",\
               \"order_type\":\"limit\",\"taker_fee\":\"0\",\
               \"referrer_rebate\":\"0\",\"is_swap\":false,\
               \"price_rank\":99999999999999999999}}";
    assert_eq!(parse_dex_event(doc).unwrap_err(), DecodeError::MalformedEvent);
}

#[test]
fn decodes_a_cancel_event_with_several_cancels() {
    let doc = "{\"event\":\"new_cancel\",\"data\":{\"market_id\":[7],\"cancels\":[\
               {\"order_id\":[1],\"refund_amount\":\"5\",\"refund_token\":\"t\",\
                \"cancelled_qty\":\"2\",\"price_rank\":0},\
               {\"order_id\":[2],\"refund_amount\":\"6\",\"refund_token\":\"t\",\
                \"cancelled_qty\":\"3\",\"price_rank\":1}]}}";
    match parse_dex_event(doc) {
        Ok(DexEvent::Cancel(c)) => {
            assert_eq!(c.market_id, vec![7u8]);
            assert_eq!(c.cancels.len(), 2);
            assert_eq!(c.cancels[0].order_id, vec![1u8]);
            assert_eq!(c.cancels[1].refund_amount, "6".to_string());
        }
        other => panic!("expected a cancel event, got {:?}", other.is_ok()),
    }
}

#[test]
fn decodes_a_fill_event() {
    let doc = "{\"event\":\"new_fill\",\"data\":{\"market_id\":[3],\"order_id\":[4],\"fills\":[\
               {\"maker_order_id\":[5],\"fill_qty\":\"1\",\"fill_price\":\"2\",\
                \"quote_qty\":\"2\",\"maker_rebate\":\"0\",\"side\":\"sell\",\
                \"taker_account_id\":\"t.near\",\"maker_account_id\":\"m.near\",\
                \"maker_price_rank\":3}]}}";
    match parse_dex_event(doc) {
        Ok(DexEvent::Fill(f)) => {
            assert_eq!(f.fills.len(), 1);
            assert_eq!(f.fills[0].side, Side::Sell);
            assert_eq!(f.fills[0].maker_price_rank, 3);
        }
        other => panic!("expected a fill event, got {:?}", other.is_ok()),
    }
}
