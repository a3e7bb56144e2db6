//! The Soroban types and calls that the library uses, with the contracts
//! that the rest of the crate relies on.
//!
//! Every call below goes to the Soroban host. Besides what each contract
//! states, a host call may abort the whole contract invocation when the
//! invocation's resource budget is spent; nothing here speaks of that.

use soroban_sdk::ledger::Ledger;
use soroban_sdk::{Address, Bytes, BytesN, Env};
use vstd::prelude::*;

verus! {

/// The Soroban host environment; opaque here.
#[verifier::external_type_specification]
#[verifier::external_body]
pub struct ExEnv(Env);

/// A Soroban byte string; what it holds is named by `bytes_view`.
#[verifier::external_type_specification]
#[verifier::external_body]
pub struct ExBytes(Bytes);

/// A Soroban byte string of fixed length `N`.
#[verifier::external_type_specification]
#[verifier::external_body]
#[verifier::reject_recursive_types(N)]
pub struct ExBytesN<const N: usize>(BytesN<N>);

/// A Soroban address; only carried through.
#[verifier::external_type_specification]
#[verifier::external_body]
pub struct ExAddress(Address);

/// Access to the ledger that the current invocation runs in.
#[verifier::external_type_specification]
#[verifier::external_body]
pub struct ExLedger(Ledger);

/// The bytes that a Soroban `Bytes` holds, in order.
pub uninterp spec fn bytes_view(b: Bytes) -> Seq<u8>;

/// The bytes that a Soroban `BytesN<20>` holds, in order.
pub uninterp spec fn bytes20_view(b: BytesN<20>) -> Seq<u8>;

/// `Bytes::len`: the number of bytes that `b` holds.
#[verifier::external_body]
pub fn bytes_len(b: &Bytes) -> (n: u32)
    ensures
        n == bytes_view(*b).len(),
{
    b.len()
}

/// `Bytes::slice` over `start..end`: a new `Bytes` holding the bytes of `b`
/// from `start` up to, not including, `end`. The host refuses a range that
/// is reversed or reaches past the end, so `requires` leaves those out.
#[verifier::external_body]
pub fn bytes_slice(b: &Bytes, start: u32, end: u32) -> (r: Bytes)
    requires
        start <= end <= bytes_view(*b).len(),
    ensures
        bytes_view(r) == bytes_view(*b).subrange(start as int, end as int),
{
    b.slice(start..end)
}

/// `Bytes::copy_into_slice`: overwrites `buf` with the bytes of `b`. It
/// panics when the lengths differ, so `requires` leaves that out.
#[verifier::external_body]
pub fn bytes_copy_into_slice<const N: usize>(b: &Bytes, buf: &mut [u8; N])
    requires
        bytes_view(*b).len() == N,
    ensures
        final(buf)@ == bytes_view(*b),
{
    b.copy_into_slice(buf)
}

/// `BytesN::<20>::from_array`: a new `BytesN<20>` holding the bytes of
/// `items`.
#[verifier::external_body]
pub fn bytes20_from_array(env: &Env, items: &[u8; 20]) -> (r: BytesN<20>)
    ensures
        bytes20_view(r) == items@,
{
    BytesN::from_array(env, items)
}

/// `Env::ledger`: access to the current ledger. Nothing is stated of it.
#[verifier::external_body]
pub fn env_ledger(env: &Env) -> Ledger {
    env.ledger()
}

/// `Ledger::timestamp`: the close time of the current ledger, in unix
/// seconds. It is the time of the ledger that the invocation runs in, so
/// nothing is stated of its value.
#[verifier::external_body]
pub fn ledger_timestamp(ledger: &Ledger) -> u64 {
    ledger.timestamp()
}

} // verus!
