//! The signed-quote header, as the contract reads it.
//!
//! The quote is an opaque byte string. Only its 68-byte header is read; all
//! integers are big-endian:
//!
//! | offset | size | field         |
//! | ------ | ---- | ------------- |
//! | 0      | 4    | prefix        |
//! | 4      | 20   | quoterAddress |
//! | 24     | 32   | payeeAddress  |
//! | 56     | 2    | srcChain      |
//! | 58     | 2    | dstChain      |
//! | 60     | 8    | expiryTime    |

use crate::be;
use crate::host;
use soroban_sdk::{Bytes, BytesN, Env};
use vstd::prelude::*;

verus! {

/// Minimum quote length: the header that is read. Everything past it is
/// opaque.
pub const QUOTE_HEADER_LEN: u32 = 68;

/// The 20-byte quoter address of quote `q`.
pub open spec fn quote_quoter(q: Seq<u8>) -> Seq<u8> {
    q.subrange(4, 24)
}

/// The 32-byte payee address of quote `q`.
pub open spec fn quote_payee(q: Seq<u8>) -> Seq<u8> {
    q.subrange(24, 56)
}

/// The source chain of quote `q`.
pub open spec fn quote_src_chain(q: Seq<u8>) -> nat {
    be::be_value(q.subrange(56, 58))
}

/// The destination chain of quote `q`.
pub open spec fn quote_dst_chain(q: Seq<u8>) -> nat {
    be::be_value(q.subrange(58, 60))
}

/// The expiry time of quote `q`, in unix seconds.
pub open spec fn quote_expiry(q: Seq<u8>) -> nat {
    be::be_value(q.subrange(60, 68))
}

/// A quote header with the given fields.
pub open spec fn quote_header(
    prefix: Seq<u8>,
    quoter: Seq<u8>,
    payee: Seq<u8>,
    src_chain: u16,
    dst_chain: u16,
    expiry: u64,
) -> Seq<u8> {
    prefix + quoter + payee + be::be_bytes(src_chain as nat, 2) + be::be_bytes(dst_chain as nat, 2)
        + be::be_bytes(expiry as nat, 8)
}

/// Reads the big-endian `u16` at offset `at` of `b`.
pub fn read_u16_be(b: &Bytes, at: u32) -> (v: u16)
    requires
        at + 2 <= host::bytes_view(*b).len() <= u32::MAX,
    ensures
        v == be::be_value(host::bytes_view(*b).subrange(at as int, at + 2)),
{
    let mut buf = [0u8; 2];
    let part = host::bytes_slice(b, at, at + 2);
    host::bytes_copy_into_slice(&part, &mut buf);
    be::u16_from_be(buf)
}

/// Reads the big-endian `u64` at offset `at` of `b`.
pub fn read_u64_be(b: &Bytes, at: u32) -> (v: u64)
    requires
        at + 8 <= host::bytes_view(*b).len() <= u32::MAX,
    ensures
        v == be::be_value(host::bytes_view(*b).subrange(at as int, at + 8)),
{
    let mut buf = [0u8; 8];
    let part = host::bytes_slice(b, at, at + 8);
    host::bytes_copy_into_slice(&part, &mut buf);
    be::u64_from_be(buf)
}

/// Reads the 20-byte quoter address of the quote `b`.
pub fn read_quoter(env: &Env, b: &Bytes) -> (q: BytesN<20>)
    requires
        24 <= host::bytes_view(*b).len(),
    ensures
        host::bytes20_view(q) == quote_quoter(host::bytes_view(*b)),
{
    let mut buf = [0u8; 20];
    let part = host::bytes_slice(b, 4, 24);
    host::bytes_copy_into_slice(&part, &mut buf);
    host::bytes20_from_array(env, &buf)
}

} // verus!
