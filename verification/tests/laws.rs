use soroban_sdk::testutils::Address as _;
use soroban_sdk::{Address, Bytes, BytesN, Env};
use wormhole_executor::error::ExecutorError;
use wormhole_executor::executor::Executor;
use wormhole_executor::quote::{read_quoter, read_u16_be, read_u64_be, QUOTE_HEADER_LEN};
use wormhole_executor::requests::{
    make_cctp_v1_request, make_cctp_v2_request, make_ntt_v1_request, make_vaa_v1_request,
};

fn header(quoter: &[u8; 20], payee: &[u8; 32], src: u16, dst: u16, expiry: u64) -> [u8; 68] {
    let mut h = [0u8; 68];
    h[0..4].copy_from_slice(b"EQ01");
    h[4..24].copy_from_slice(quoter);
    h[24..56].copy_from_slice(payee);
    h[56..58].copy_from_slice(&src.to_be_bytes());
    h[58..60].copy_from_slice(&dst.to_be_bytes());
    h[60..68].copy_from_slice(&expiry.to_be_bytes());
    h
}

fn quote_with_tail(env: &Env, h: &[u8; 68], tail: &[u8]) -> Bytes {
    let mut b = Bytes::from_slice(env, h);
    b.append(&Bytes::from_slice(env, tail));
    b
}

#[test]
fn header_fields_read_back() {
    let env = Env::default();
    let quoter: [u8; 20] = core::array::from_fn(|i| (i as u8) + 1);
    let h = header(&quoter, &[0x5a; 32], 0xBEEF, 0x0102, 0x0102_0304_0506_0708);
    let q = Bytes::from_slice(&env, &h);
    assert_eq!(read_u16_be(&q, 56), 0xBEEF);
    assert_eq!(read_u16_be(&q, 58), 0x0102);
    assert_eq!(read_u64_be(&q, 60), 0x0102_0304_0506_0708);
    assert_eq!(read_quoter(&env, &q), BytesN::from_array(&env, &quoter));
}

#[test]
fn header_fields_extremes() {
    let env = Env::default();
    let h = header(&[0xff; 20], &[0xff; 32], u16::MAX, 0, u64::MAX);
    let q = Bytes::from_slice(&env, &h);
    assert_eq!(read_u16_be(&q, 56), u16::MAX);
    assert_eq!(read_u16_be(&q, 58), 0);
    assert_eq!(read_u64_be(&q, 60), u64::MAX);
}

#[test]
fn quote_tail_is_ignored() {
    let env = Env::default();
    let h = header(&[1; 20], &[2; 32], 61, 2, 500);
    let short = Bytes::from_slice(&env, &h);
    let long = quote_with_tail(&env, &h, &[0xEE; 97]);
    for now in [0u64, 499, 500, 501] {
        for amount in [-1i128, 0, 7] {
            assert_eq!(
                Executor::check_request(61, now, 2, amount, &short),
                Executor::check_request(61, now, 2, amount, &long)
            );
        }
    }
}

#[test]
fn expiry_is_strict_and_monotone() {
    let env = Env::default();
    let q = Bytes::from_slice(&env, &header(&[0; 20], &[0; 32], 5, 6, 1000));
    assert_eq!(Executor::check_request(5, 0, 6, 1, &q), Ok(()));
    assert_eq!(Executor::check_request(5, 999, 6, 1, &q), Ok(()));
    assert_eq!(Executor::check_request(5, 1000, 6, 1, &q), Err(ExecutorError::QuoteExpired));
    assert_eq!(Executor::check_request(5, u64::MAX, 6, 1, &q), Err(ExecutorError::QuoteExpired));
}

#[test]
fn wide_chain_ids_are_not_truncated() {
    let env = Env::default();
    let q = Bytes::from_slice(&env, &header(&[0; 20], &[0; 32], 61, 2, u64::MAX));
    assert_eq!(Executor::check_request(61, 0, 2, 1, &q), Ok(()));
    assert_eq!(
        Executor::check_request(0x1_0000 + 61, 0, 2, 1, &q),
        Err(ExecutorError::QuoteSrcChainMismatch)
    );
    assert_eq!(
        Executor::check_request(61, 0, 0x1_0000 + 2, 1, &q),
        Err(ExecutorError::QuoteDstChainMismatch)
    );
}

#[test]
fn checks_come_in_order() {
    let env = Env::default();
    let short = Bytes::from_slice(&env, &[0u8; 10]);
    // A negative amount is reported before a short quote.
    assert_eq!(Executor::check_request(1, 0, 2, -5, &short), Err(ExecutorError::InvalidAmount));
    // A short quote is reported whatever the chains.
    assert_eq!(Executor::check_request(1, 0, 2, 5, &short), Err(ExecutorError::InvalidQuote));
    let boundary = Bytes::from_slice(&env, &[0u8; QUOTE_HEADER_LEN as usize]);
    assert_eq!(Executor::check_request(0, 0, 0, 0, &boundary), Err(ExecutorError::QuoteExpired));
    // Everything wrong: the source chain is reported first.
    let q = Bytes::from_slice(&env, &header(&[0; 20], &[0; 32], 1, 2, 0));
    assert_eq!(Executor::check_request(9, 10, 8, 0, &q), Err(ExecutorError::QuoteSrcChainMismatch));
    assert_eq!(Executor::check_request(1, 10, 8, 0, &q), Err(ExecutorError::QuoteDstChainMismatch));
    assert_eq!(Executor::check_request(1, 10, 2, 0, &q), Err(ExecutorError::QuoteExpired));
}

#[test]
fn request_at_explicit_time() {
    let env = Env::default();
    let quoter = [0x42u8; 20];
    let q = quote_with_tail(&env, &header(&quoter, &[0; 32], 3, 4, 100), &[9, 9, 9]);
    let dst_addr = BytesN::<32>::from_array(&env, &[3u8; 32]);
    let refund = Address::generate(&env);
    let ok = Executor::request_execution_at(
        &env, 3, 99, 4, dst_addr.clone(), refund.clone(), 17, q.clone(),
        Bytes::from_slice(&env, &[1]), Bytes::from_slice(&env, &[2]),
    )
    .ok()
    .unwrap();
    assert_eq!(ok.quoter_address, BytesN::from_array(&env, &quoter));
    assert_eq!(ok.amt_paid, 17);
    assert_eq!(ok.dst_chain, 4);
    assert_eq!(ok.dst_addr, dst_addr);
    assert_eq!(ok.refund_addr, refund);
    assert_eq!(ok.signed_quote, q);
    assert_eq!(ok.request, Bytes::from_slice(&env, &[1]));
    assert_eq!(ok.relay_instructions, Bytes::from_slice(&env, &[2]));
    let err = Executor::request_execution_at(
        &env, 3, 100, 4, dst_addr, refund, 17, q, Bytes::new(&env), Bytes::new(&env),
    )
    .err()
    .unwrap();
    assert_eq!(err, ExecutorError::QuoteExpired);
}

#[test]
fn error_codes() {
    let all = [
        ExecutorError::QuoteExpired,
        ExecutorError::QuoteSrcChainMismatch,
        ExecutorError::QuoteDstChainMismatch,
        ExecutorError::InvalidAmount,
        ExecutorError::InvalidQuote,
    ];
    let codes: Vec<u32> = all.iter().map(|e| e.code()).collect();
    assert_eq!(codes, vec![11, 12, 13, 14, 15]);
    assert!(ExecutorError::QuoteExpired < ExecutorError::InvalidQuote);
}

#[test]
fn request_lengths_and_prefixes() {
    let a = make_vaa_v1_request(1, [2; 32], 3);
    let n = make_ntt_v1_request(1, [2; 32], [3; 32]);
    let c1 = make_cctp_v1_request(1, 2);
    let c2 = make_cctp_v2_request();
    assert_eq!(a.len(), 46);
    assert_eq!(n.len(), 70);
    assert_eq!(c1.len(), 16);
    assert_eq!(c2.len(), 5);
    assert_eq!(&a[0..4], b"ERV1");
    assert_eq!(&n[0..4], b"ERN1");
    assert_eq!(&c1[0..4], b"ERC1");
    assert_eq!(&c2[0..4], b"ERC2");
}

#[test]
fn request_fields_read_back() {
    let a = make_vaa_v1_request(0xABCD, [7; 32], 0x1122_3344_5566_7788);
    assert_eq!(u16::from_be_bytes([a[4], a[5]]), 0xABCD);
    assert_eq!(&a[6..38], &[7u8; 32]);
    assert_eq!(u64::from_be_bytes(a[38..46].try_into().unwrap()), 0x1122_3344_5566_7788);
    let c = make_cctp_v1_request(u32::MAX, u64::MAX);
    assert_eq!(&c[4..16], &[0xff; 12]);
    let c = make_cctp_v1_request(0x0102_0304, 0);
    assert_eq!(&c[4..8], &[1, 2, 3, 4]);
}

#[test]
fn requests_are_injective() {
    assert_ne!(make_vaa_v1_request(1, [0; 32], 0), make_vaa_v1_request(256, [0; 32], 0));
    assert_ne!(make_vaa_v1_request(1, [0; 32], 0), make_vaa_v1_request(1, [0; 32], 1 << 56));
    assert_ne!(make_ntt_v1_request(1, [1; 32], [2; 32]), make_ntt_v1_request(1, [2; 32], [1; 32]));
    assert_ne!(make_cctp_v1_request(1, 0), make_cctp_v1_request(0, 1));
}
