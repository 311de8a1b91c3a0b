use chain_bridge::chain::{
    fee_query_body, prepare_transfer, read_fee_quote, sign_transfer, to_prefixed_hex, transfer_data,
    AccountRecord, FixedH256, GAS_LIMIT, MAX_CHAIN_ID,
};
use chain_bridge::error::AppError;
use chain_bridge::ingest::{decide_after_persist, is_duplicate_key, IngestAction, PersistOutcome};
use chain_bridge::ledger::{settlement_update, LedgerEntry};
use chain_bridge::model::{StatusChoice, TokenCode};
use chain_bridge::schema::Msg;
use chain_bridge::setting::Setting;
use chain_bridge::text::{contains_text, str_equal};

const KEY: &str = "0x4c0883a69102937d6231471b5dbb6204fe5129617082792ae468d01a3f362318";
const ADDR_A: &str = "0x1111111111111111111111111111111111111111";
const ADDR_B: &str = "0x2222222222222222222222222222222222222222";

fn setting() -> Setting {
    Setting {
        pulsar_addr: "pulsar://localhost:6650".to_string(),
        topic: "transfers".to_string(),
        sub_name: "bridge".to_string(),
        rpc: "http://localhost:8545".to_string(),
        batch_size: 4,
        token_a: "0xaaaaaaaaaaaaaaaaaaaaaaaaaaaaaaaaaaaaaaaa".to_string(),
        token_b: "0xbbbbbbbbbbbbbbbbbbbbbbbbbbbbbbbbbbbbbbbb".to_string(),
        token_c: "0xcccccccccccccccccccccccccccccccccccccccc".to_string(),
        token_d: "0xdddddddddddddddddddddddddddddddddddddddd".to_string(),
        token_e: "0xeeeeeeeeeeeeeeeeeeeeeeeeeeeeeeeeeeeeeeee".to_string(),
    }
}

fn msg(tag: &str, point: i64, coin: TokenCode) -> Msg {
    Msg {
        from_user_id: "A".to_string(),
        to_user_id: "B".to_string(),
        order_id: "order-1".to_string(),
        point,
        coin_code: coin,
        gen_time: 1_700_000_000_000,
        tag_id: tag.to_string(),
        ext_json: None,
        store_id: None,
    }
}

fn account(address: &str, key: &str) -> AccountRecord {
    AccountRecord { address: address.to_string(), private_key: key.to_string() }
}

#[test]
fn text_helpers() {
    assert!(str_equal("abc", "abc"));
    assert!(!str_equal("abc", "abd"));
    assert!(!str_equal("abc", "ab"));
    assert!(contains_text("hello world", "o w"));
    assert!(contains_text("abc", ""));
    assert!(!contains_text("abc", "abcd"));
    assert_eq!(to_prefixed_hex(&[0x01, 0xab, 0xff]), "0x01abff");
    assert_eq!(to_prefixed_hex(&[]), "0x");
}

#[test]
fn token_codes_resolve_with_fallback() {
    assert_eq!(TokenCode::from_name("token_c"), TokenCode::TokenC);
    assert_eq!(TokenCode::from_name("token_x"), TokenCode::TokenA);
    assert_eq!(TokenCode::from_wire("e"), TokenCode::TokenE);
    assert_eq!(TokenCode::from_wire("zz"), TokenCode::TokenA);
    assert_eq!(TokenCode::TokenD.name(), "token_d");
    assert_eq!(StatusChoice::Pending.as_str(), "pending");
    assert_eq!(StatusChoice::Fail.as_str(), "fail");
}

#[test]
fn unknown_token_uses_default_contract() {
    let s = setting();
    assert_eq!(s.resolve_contract("token_x"), s.resolve_contract("token_a"));
    assert_eq!(s.resolve_contract("token_x"), &s.token_a);
    assert_eq!(s.resolve_contract("token_b"), &s.token_b);
    assert_eq!(s.contract_address(TokenCode::TokenE), &s.token_e);
}

#[test]
fn channel_capacity_is_twice_workers() {
    let s = setting();
    assert_eq!(s.channel_capacity(), 8);
}

#[test]
fn error_messages_and_codes() {
    assert_eq!(AppError::KeyError("result".to_string()).message(), "can't get key result from item");
    assert_eq!(AppError::PrivateKeyError.message(), "incorrect private key");
    assert_eq!(AppError::SQLError("db down".to_string()).message(), "db down");
    assert_eq!(AppError::SQLError("x".to_string()).status_code(), 400);
    assert_eq!(AppError::ProviderError("x".to_string()).status_code(), 400);
    assert_eq!(AppError::RequestError("x".to_string()).status_code(), 500);
    assert_eq!(AppError::WalletError("x".to_string()).status_code(), 500);
    assert_eq!(AppError::PrivateKeyError.status_code(), 500);
}

#[test]
fn key_without_prefix_is_rejected_before_any_call() {
    let s = setting();
    let m = msg("T1", 100, TokenCode::TokenA);
    let r = prepare_transfer(&s, &m, &account(ADDR_A, &KEY[2..]), &account(ADDR_B, KEY));
    assert!(matches!(r, Err(AppError::PrivateKeyError)));
}

#[test]
fn malformed_address_is_rejected() {
    let s = setting();
    let m = msg("T1", 100, TokenCode::TokenA);
    let r = prepare_transfer(&s, &m, &account("0x12", KEY), &account(ADDR_B, KEY));
    assert!(matches!(r, Err(AppError::FromHexError2(_))));
    let r = prepare_transfer(&s, &m, &account(ADDR_A, KEY), &account("0xzz22222222222222222222222222222222222222", KEY));
    assert!(matches!(r, Err(AppError::FromHexError2(_))));
}

#[test]
fn malformed_key_is_rejected() {
    let s = setting();
    let m = msg("T1", 100, TokenCode::TokenA);
    let r = prepare_transfer(&s, &m, &account(ADDR_A, "0x1234"), &account(ADDR_B, KEY));
    assert!(matches!(r, Err(AppError::WalletError(_))));
}

#[test]
fn prepared_transfer_holds_parsed_values() {
    let s = setting();
    let m = msg("T1", 100, TokenCode::TokenB);
    let p = prepare_transfer(&s, &m, &account(ADDR_A, KEY), &account(ADDR_B, KEY)).unwrap();
    assert_eq!(p.from, [0x11u8; 20]);
    assert_eq!(p.to, [0x22u8; 20]);
    assert_eq!(p.contract, [0xbbu8; 20]);
    assert_eq!(p.signing_key, &KEY[2..]);
    assert_eq!(p.amount, 100);
    assert_eq!(p.gas_limit, GAS_LIMIT);
    assert_eq!(GAS_LIMIT, 50000);
    let body = fee_query_body(&p);
    assert_eq!(
        body,
        "[{\"jsonrpc\":\"2.0\",\"method\":\"eth_gasPrice\",\"params\":[],\"id\":1},{\"jsonrpc\":\"2.0\",\"method\":\"eth_getTransactionCount\",\"params\":[\"0x1111111111111111111111111111111111111111\",\"latest\"],\"id\":2}]"
    );
}

#[test]
fn fee_quote_reads_results() {
    let q = read_fee_quote(&Some("0x1".to_string()), &Some("0x0".to_string())).unwrap();
    assert_eq!(q.gas_price, [1, 0, 0, 0]);
    assert_eq!(q.nonce, [0, 0, 0, 0]);
    let q = read_fee_quote(&Some("0x3b9aca00".to_string()), &Some("0x1f".to_string())).unwrap();
    assert_eq!(q.gas_price, [1_000_000_000, 0, 0, 0]);
    assert_eq!(q.nonce, [31, 0, 0, 0]);
    assert!(matches!(read_fee_quote(&None, &Some("0x0".to_string())), Err(AppError::KeyError(k)) if k == "result"));
    assert!(matches!(read_fee_quote(&Some("0x1".to_string()), &None), Err(AppError::KeyError(k)) if k == "result"));
    assert!(matches!(read_fee_quote(&Some("0xzz".to_string()), &Some("0x0".to_string())), Err(AppError::FromHexError(_))));
}

#[test]
fn full_hash_is_never_elided() {
    let h = FixedH256([0xaa; 32]).to_hex_string();
    assert_eq!(h.len(), 66);
    assert_eq!(h, format!("0x{}", "aa".repeat(32)));
    let mut bytes = [0u8; 32];
    bytes[0] = 0x7c;
    bytes[31] = 0xe5;
    let h = FixedH256(bytes).to_hex_string();
    assert!(h.starts_with("0x7c00"));
    assert!(h.ends_with("00e5"));
    assert!(!h.contains('…'));
}

#[test]
fn end_to_end_success_update() {
    let hash = FixedH256([0xaa; 32]).to_hex_string();
    let u = settlement_update(&Ok(hash.clone()));
    assert_eq!(u.status_code, 202);
    assert_eq!(u.status, StatusChoice::Success);
    assert_eq!(u.tx_hash, Some(format!("0x{}", "aa".repeat(32))));
    assert_eq!(u.fail_reason, None);
    let mut e = LedgerEntry::pending(msg("T1", 100, TokenCode::TokenA));
    assert_eq!(e.status, StatusChoice::Pending);
    e.settle(u);
    assert_eq!(e.status, StatusChoice::Success);
    assert_eq!(e.status_code, Some(202));
    assert_eq!(e.tx_hash, Some(hash));
}

#[test]
fn end_to_end_store_failure_update() {
    let u = settlement_update(&Err(AppError::SQLError("connection reset by peer".to_string())));
    assert_eq!(u.status_code, 400);
    assert_eq!(u.status, StatusChoice::Fail);
    assert_eq!(u.tx_hash, None);
    assert_eq!(u.fail_reason, Some("connection reset by peer".to_string()));
}

#[test]
fn missing_result_field_update() {
    let r = read_fee_quote(&None, &Some("0x0".to_string())).map(|_| String::new());
    let u = settlement_update(&r);
    assert_eq!(u.status_code, 500);
    assert_eq!(u.tx_hash, None);
    assert!(u.fail_reason.unwrap().contains("result"));
}

#[test]
fn ingestion_decisions() {
    assert_eq!(decide_after_persist(&PersistOutcome::Inserted), IngestAction::AckAndForward);
    let dup = "db error: ERROR: duplicate key value violates unique constraint \"transactions_pool_tag_id_key\"";
    assert!(is_duplicate_key(dup));
    assert_eq!(decide_after_persist(&PersistOutcome::Rejected(dup.to_string())), IngestAction::Ack);
    assert_eq!(
        decide_after_persist(&PersistOutcome::Rejected("connection refused".to_string())),
        IngestAction::Nack
    );
    assert!(IngestAction::AckAndForward.forwards());
    assert!(IngestAction::Ack.acks());
    assert!(!IngestAction::Ack.forwards());
    assert!(!IngestAction::Nack.acks());
}

#[test]
fn second_delivery_of_a_tag_is_acked_not_forwarded() {
    // a store keyed by tag, as the unique constraint keeps it
    let mut rows: Vec<LedgerEntry> = Vec::new();
    let mut forwarded = 0;
    for _ in 0..2 {
        let m = msg("T1", 100, TokenCode::TokenA);
        let outcome = if rows.iter().any(|r| r.request.tag_id == m.tag_id) {
            PersistOutcome::Rejected("duplicate key value violates unique constraint \"tag_id\"".to_string())
        } else {
            rows.push(LedgerEntry::pending(m.clone()));
            PersistOutcome::Inserted
        };
        let action = decide_after_persist(&outcome);
        assert!(action.acks());
        if action.forwards() {
            forwarded += 1;
            assert!(rows.iter().any(|r| r.request.tag_id == m.tag_id && r.status == StatusChoice::Pending));
        }
    }
    assert_eq!(rows.len(), 1);
    assert_eq!(forwarded, 1);
}

#[test]
fn transfer_call_data_layout() {
    let d = transfer_data(&[0x22; 20], 100);
    assert_eq!(d.len(), 68);
    assert_eq!(&d[0..4], &[0xa9, 0x05, 0x9c, 0xbb]);
    assert_eq!(&d[4..16], &[0u8; 12]);
    assert_eq!(&d[16..36], &[0x22u8; 20]);
    assert_eq!(&d[36..67], &[0u8; 31]);
    assert_eq!(d[67], 100);
    let d = transfer_data(&[0x01; 20], 0x0102030405060708);
    assert_eq!(&d[60..68], &[1, 2, 3, 4, 5, 6, 7, 8]);
}

#[test]
fn signing_is_offline_and_deterministic() {
    let s = setting();
    let m = msg("T1", 100, TokenCode::TokenA);
    let p = prepare_transfer(&s, &m, &account(ADDR_A, KEY), &account(ADDR_B, KEY)).unwrap();
    let q = read_fee_quote(&Some("0x1".to_string()), &Some("0x0".to_string())).unwrap();
    let a = sign_transfer(&p, &q, 1).unwrap();
    let b = sign_transfer(&p, &q, 1).unwrap();
    assert_eq!(a, b);
    assert_eq!(a[0], 0x02);
    assert!(a.len() > 68 + 65);
    let data = transfer_data(&p.to, p.amount);
    assert!(a.windows(data.len()).any(|w| w == data.as_slice()));
    let c = sign_transfer(&p, &q, 5).unwrap();
    assert_ne!(a, c);
}

#[test]
fn address_parser_skips_whitespace_and_needs_forty_digits() {
    let s = setting();
    let m = msg("T1", 1, TokenCode::TokenA);
    let spaced = "0x1111 1111\t1111111111111111111111111111111\n1";
    let p = prepare_transfer(&s, &m, &account(spaced, KEY), &account("2222222222222222222222222222222222222222", KEY)).unwrap();
    assert_eq!(p.from, [0x11u8; 20]);
    assert_eq!(p.to, [0x22u8; 20]);
    let upper = "0xABABABABABABABABABABABABABABABABABABABAB";
    let p = prepare_transfer(&s, &m, &account(upper, KEY), &account(ADDR_B, KEY)).unwrap();
    assert_eq!(p.from, [0xabu8; 20]);
    let short = "0x111111111111111111111111111111111111111";
    assert!(matches!(prepare_transfer(&s, &m, &account(short, KEY), &account(ADDR_B, KEY)), Err(AppError::FromHexError2(_))));
    let long = "0x11111111111111111111111111111111111111111";
    assert!(matches!(prepare_transfer(&s, &m, &account(long, KEY), &account(ADDR_B, KEY)), Err(AppError::FromHexError2(_))));
}

#[test]
fn quantity_parser_bounds() {
    let q = read_fee_quote(&Some("".to_string()), &Some("0xF".to_string())).unwrap();
    assert_eq!(q.gas_price, [0, 0, 0, 0]);
    assert_eq!(q.nonce, [15, 0, 0, 0]);
    let q = read_fee_quote(&Some("0x10000000000000000".to_string()), &Some("abc".to_string())).unwrap();
    assert_eq!(q.gas_price, [0, 1, 0, 0]);
    assert_eq!(q.nonce, [0xabc, 0, 0, 0]);
    let max = format!("0x{}", "f".repeat(64));
    let q = read_fee_quote(&Some(max), &Some("0x0".to_string())).unwrap();
    assert_eq!(q.gas_price, [u64::MAX; 4]);
    let over = format!("0x{}", "1".repeat(65));
    assert!(matches!(read_fee_quote(&Some(over), &Some("0x0".to_string())), Err(AppError::FromHexError(_))));
    assert!(matches!(read_fee_quote(&Some("0x 1".to_string()), &Some("0x0".to_string())), Err(AppError::FromHexError(_))));
}

#[test]
fn signing_accepts_the_largest_chain_id() {
    let s = setting();
    let m = msg("T1", 100, TokenCode::TokenA);
    let p = prepare_transfer(&s, &m, &account(ADDR_A, KEY), &account(ADDR_B, KEY)).unwrap();
    let q = read_fee_quote(&Some("0x1".to_string()), &Some("0x0".to_string())).unwrap();
    assert_eq!(MAX_CHAIN_ID, (u64::MAX - 38) / 2);
    assert!(3 + 35 + 2 * (MAX_CHAIN_ID as u128) <= u64::MAX as u128);
    assert!(sign_transfer(&p, &q, MAX_CHAIN_ID).is_ok());
}
