//! The decisions of the Wormhole Executor contract.
//!
//! The Executor is a stateless, permissionless payment rail: a payer prepays
//! a relayer to execute a cross-chain delivery request. A request for
//! execution is accepted when `amount >= 0`, the quote holds at least a full
//! header, the header's source chain equals the chain id configured at
//! construction, its destination chain equals the `dst_chain` argument, and
//! its expiry lies after the current ledger timestamp. An accepted request
//! yields the `RequestForExecution` event, which carries the full quote
//! verbatim.
//!
//! The quote's signature is not verified and the payee is not bound to the
//! quote's payee field: both are left to off-chain relayers, which the
//! verbatim quote in the event allows.

use crate::be;
use crate::error::ExecutorError;
use crate::host;
use crate::quote;
use soroban_sdk::{Address, Bytes, BytesN, Env};
use vstd::prelude::*;

verus! {

/// The Wormhole Executor contract.
pub struct Executor;

/// The event of an accepted request for execution, for off-chain relayers.
pub struct RequestForExecution {
    /// 20-byte EVM identity of the quoter, read from the quote header.
    pub quoter_address: BytesN<20>,
    /// Amount of native token (stroops) paid by the payer to the payee.
    pub amt_paid: i128,
    /// Wormhole chain id of the destination chain.
    pub dst_chain: u32,
    /// 32-byte destination address in Wormhole's left-zero-padded encoding.
    pub dst_addr: BytesN<32>,
    /// Address the off-chain relayer should refund on failure.
    pub refund_addr: Address,
    /// The full signed quote submitted by the payer, verbatim.
    pub signed_quote: Bytes,
    /// Opaque delivery request payload.
    pub request: Bytes,
    /// Opaque relaying instructions.
    pub relay_instructions: Bytes,
}

/// The version string of this Executor implementation.
pub open spec fn executor_version_spec() -> Seq<char> {
    seq!['E', 'x', 'e', 'c', 'u', 't', 'o', 'r', '-', '0', '.', '0', '.', '1']
}

/// Whether a request for execution is accepted and, if not, the error it is
/// refused with. The checks come in this order; the first that fails
/// decides.
pub open spec fn request_check(chain_id: u32, now: u64, dst_chain: u32, amount: i128, quote: Seq<u8>) -> Result<(), ExecutorError> {
    if amount < 0 {
        Err(ExecutorError::InvalidAmount)
    } else if quote.len() < quote::QUOTE_HEADER_LEN {
        Err(ExecutorError::InvalidQuote)
    } else if quote::quote_src_chain(quote) != chain_id {
        Err(ExecutorError::QuoteSrcChainMismatch)
    } else if quote::quote_dst_chain(quote) != dst_chain {
        Err(ExecutorError::QuoteDstChainMismatch)
    } else if quote::quote_expiry(quote) <= now {
        Err(ExecutorError::QuoteExpired)
    } else {
        Ok(())
    }
}

/// What a request for execution made at ledger time `now` comes to: the
/// error of `request_check`, or, where it accepts, the event that carries
/// the request's arguments and the quote verbatim.
pub open spec fn request_outcome(
    r: Result<RequestForExecution, ExecutorError>,
    chain_id: u32,
    now: u64,
    dst_chain: u32,
    dst_addr: BytesN<32>,
    refund: Address,
    amount: i128,
    signed_quote_bytes: Bytes,
    request: Bytes,
    relay_instructions: Bytes,
) -> bool {
    let q = host::bytes_view(signed_quote_bytes);
    match r {
        Ok(ev) => {
            &&& request_check(chain_id, now, dst_chain, amount, q) == Ok::<(), ExecutorError>(())
            &&& host::bytes20_view(ev.quoter_address) == quote::quote_quoter(q)
            &&& ev.amt_paid == amount
            &&& ev.dst_chain == dst_chain
            &&& ev.dst_addr == dst_addr
            &&& ev.refund_addr == refund
            &&& ev.signed_quote == signed_quote_bytes
            &&& ev.request == request
            &&& ev.relay_instructions == relay_instructions
        },
        Err(e) => request_check(chain_id, now, dst_chain, amount, q) == Err::<(), ExecutorError>(e),
    }
}

impl Executor {
    /// Returns the version string of the Executor implementation.
    pub fn executor_version() -> (v: &'static str)
        ensures
            v@ == executor_version_spec(),
    {
        let v = "Executor-0.0.1";
        proof {
            reveal_strlit("Executor-0.0.1");
        }
        assert(v@ =~= executor_version_spec());
        v
    }

    /// Checks a request for execution against the configured `chain_id` at
    /// ledger time `now`.
    pub fn check_request(
        chain_id: u32,
        now: u64,
        dst_chain: u32,
        amount: i128,
        signed_quote_bytes: &Bytes,
    ) -> (r: Result<(), ExecutorError>)
        ensures
            r == request_check(chain_id, now, dst_chain, amount, host::bytes_view(*signed_quote_bytes)),
            r is Ok <==> (amount >= 0 && host::bytes_view(*signed_quote_bytes).len() >= 68
                && quote::quote_src_chain(host::bytes_view(*signed_quote_bytes)) == chain_id
                && quote::quote_dst_chain(host::bytes_view(*signed_quote_bytes)) == dst_chain
                && quote::quote_expiry(host::bytes_view(*signed_quote_bytes)) > now),
            amount >= 0 && host::bytes_view(*signed_quote_bytes).len() < 68
                ==> r == Err::<(), ExecutorError>(ExecutorError::InvalidQuote),
    {
        if amount < 0 {
            return Err(ExecutorError::InvalidAmount);
        }
        if host::bytes_len(signed_quote_bytes) < quote::QUOTE_HEADER_LEN {
            return Err(ExecutorError::InvalidQuote);
        }
        // Widen the 16-bit wire fields to u32 for comparison; never truncate
        // the u32 arguments down to u16, which would alias out-of-range ids.
        if quote::read_u16_be(signed_quote_bytes, 56) as u32 != chain_id {
            return Err(ExecutorError::QuoteSrcChainMismatch);
        }
        if quote::read_u16_be(signed_quote_bytes, 58) as u32 != dst_chain {
            return Err(ExecutorError::QuoteDstChainMismatch);
        }
        if quote::read_u64_be(signed_quote_bytes, 60) <= now {
            return Err(ExecutorError::QuoteExpired);
        }
        Ok(())
    }

    /// Decides a request for execution made at ledger time `now`: refuses it
    /// with the first failing check, or yields the event that records it.
    pub fn request_execution_at(
        env: &Env,
        chain_id: u32,
        now: u64,
        dst_chain: u32,
        dst_addr: BytesN<32>,
        refund: Address,
        amount: i128,
        signed_quote_bytes: Bytes,
        request: Bytes,
        relay_instructions: Bytes,
    ) -> (r: Result<RequestForExecution, ExecutorError>)
        ensures
            request_outcome(r, chain_id, now, dst_chain, dst_addr, refund, amount,
                signed_quote_bytes, request, relay_instructions),
            r is Ok <==> (amount >= 0 && host::bytes_view(signed_quote_bytes).len() >= 68
                && quote::quote_src_chain(host::bytes_view(signed_quote_bytes)) == chain_id
                && quote::quote_dst_chain(host::bytes_view(signed_quote_bytes)) == dst_chain
                && quote::quote_expiry(host::bytes_view(signed_quote_bytes)) > now),
            amount >= 0 && host::bytes_view(signed_quote_bytes).len() < 68
                ==> r == Err::<RequestForExecution, ExecutorError>(ExecutorError::InvalidQuote),
    {
        proof {
            lemma_acceptance(chain_id, now, dst_chain, amount, host::bytes_view(signed_quote_bytes));
        }
        match Self::check_request(chain_id, now, dst_chain, amount, &signed_quote_bytes) {
            Err(e) => Err(e),
            Ok(()) => {
                let quoter_address = quote::read_quoter(env, &signed_quote_bytes);
                Ok(RequestForExecution {
                    quoter_address,
                    amt_paid: amount,
                    dst_chain,
                    dst_addr,
                    refund_addr: refund,
                    signed_quote: signed_quote_bytes,
                    request,
                    relay_instructions,
                })
            },
        }
    }

    /// Decides a request for execution at the timestamp of the current
    /// ledger, which it reads from `env`.
    pub fn request_execution(
        env: &Env,
        chain_id: u32,
        dst_chain: u32,
        dst_addr: BytesN<32>,
        refund: Address,
        amount: i128,
        signed_quote_bytes: Bytes,
        request: Bytes,
        relay_instructions: Bytes,
    ) -> (r: Result<RequestForExecution, ExecutorError>)
        ensures
            exists|now: u64|
                request_outcome(r, chain_id, now, dst_chain, dst_addr, refund, amount,
                    signed_quote_bytes, request, relay_instructions),
            r is Ok ==> (amount >= 0 && host::bytes_view(signed_quote_bytes).len() >= 68
                && quote::quote_src_chain(host::bytes_view(signed_quote_bytes)) == chain_id
                && quote::quote_dst_chain(host::bytes_view(signed_quote_bytes)) == dst_chain),
            amount >= 0 && host::bytes_view(signed_quote_bytes).len() < 68
                ==> r == Err::<RequestForExecution, ExecutorError>(ExecutorError::InvalidQuote),
    {
        let now = host::ledger_timestamp(&host::env_ledger(env));
        let r = Self::request_execution_at(env, chain_id, now, dst_chain, dst_addr, refund, amount,
            signed_quote_bytes, request, relay_instructions);
        assert(request_outcome(r, chain_id, now, dst_chain, dst_addr, refund, amount,
            signed_quote_bytes, request, relay_instructions));
        r
    }
}


/// Only the 68-byte header of the quote takes part in the decision: two
/// quotes of at least a header's length with the same header are accepted
/// or refused alike, whatever follows the header.
pub proof fn lemma_check_reads_header_only(
    chain_id: u32,
    now: u64,
    dst_chain: u32,
    amount: i128,
    q1: Seq<u8>,
    q2: Seq<u8>,
)
    requires
        q1.len() >= quote::QUOTE_HEADER_LEN,
        q2.len() >= quote::QUOTE_HEADER_LEN,
        q1.subrange(0, 68) == q2.subrange(0, 68),
    ensures
        request_check(chain_id, now, dst_chain, amount, q1) == request_check(chain_id, now, dst_chain, amount, q2),
{
    assert(q1.subrange(56, 58) =~= q1.subrange(0, 68).subrange(56, 58));
    assert(q2.subrange(56, 58) =~= q2.subrange(0, 68).subrange(56, 58));
    assert(q1.subrange(58, 60) =~= q1.subrange(0, 68).subrange(58, 60));
    assert(q2.subrange(58, 60) =~= q2.subrange(0, 68).subrange(58, 60));
    assert(q1.subrange(60, 68) =~= q1.subrange(0, 68).subrange(60, 68));
    assert(q2.subrange(60, 68) =~= q2.subrange(0, 68).subrange(60, 68));
}

/// Time only ever expires a quote: a request accepted at some ledger time
/// is accepted at every earlier time, a request refused as expired stays
/// refused as expired at every later time, and the time changes no other
/// outcome.
pub proof fn lemma_expiry_monotone(
    chain_id: u32,
    earlier: u64,
    later: u64,
    dst_chain: u32,
    amount: i128,
    q: Seq<u8>,
)
    requires
        earlier <= later,
    ensures
        request_check(chain_id, later, dst_chain, amount, q) is Ok
            ==> request_check(chain_id, earlier, dst_chain, amount, q) is Ok,
        request_check(chain_id, earlier, dst_chain, amount, q) == Err::<(), ExecutorError>(ExecutorError::QuoteExpired)
            ==> request_check(chain_id, later, dst_chain, amount, q) == Err::<(), ExecutorError>(ExecutorError::QuoteExpired),
        request_check(chain_id, earlier, dst_chain, amount, q) != request_check(chain_id, later, dst_chain, amount, q)
            ==> request_check(chain_id, earlier, dst_chain, amount, q) is Ok
                && request_check(chain_id, later, dst_chain, amount, q) == Err::<(), ExecutorError>(ExecutorError::QuoteExpired),
{
}

/// Chain ids are 16-bit on the wire and are compared widened, never
/// truncated: a configured chain id or a `dst_chain` argument above
/// `u16::MAX` never lets a request through.
pub proof fn lemma_wide_chain_ids_refused(chain_id: u32, now: u64, dst_chain: u32, amount: i128, q: Seq<u8>)
    requires
        chain_id > 0xffff || dst_chain > 0xffff,
    ensures
        request_check(chain_id, now, dst_chain, amount, q) is Err,
{
    if q.len() >= quote::QUOTE_HEADER_LEN {
        be::lemma_be_value_bound(q.subrange(56, 58));
        be::lemma_be_value_bound(q.subrange(58, 60));
        be::lemma_pow256_widths();
    }
}

/// A quote made of a header with given fields and any tail reads back those
/// fields, and is accepted exactly when the amount is not negative, its
/// source chain is the configured one, its destination chain is the
/// requested one and its expiry lies after `now`.
pub proof fn lemma_quote_header_roundtrip(
    prefix: Seq<u8>,
    quoter: Seq<u8>,
    payee: Seq<u8>,
    src_chain: u16,
    dst: u16,
    expiry: u64,
    tail: Seq<u8>,
    chain_id: u32,
    now: u64,
    dst_chain: u32,
    amount: i128,
)
    requires
        prefix.len() == 4,
        quoter.len() == 20,
        payee.len() == 32,
    ensures
        ({
            let q = quote::quote_header(prefix, quoter, payee, src_chain, dst, expiry) + tail;
            &&& q.len() == 68 + tail.len()
            &&& quote::quote_quoter(q) == quoter
            &&& quote::quote_payee(q) == payee
            &&& quote::quote_src_chain(q) == src_chain
            &&& quote::quote_dst_chain(q) == dst
            &&& quote::quote_expiry(q) == expiry
            &&& (request_check(chain_id, now, dst_chain, amount, q) is Ok <==> (amount >= 0
                && src_chain == chain_id && dst == dst_chain && expiry > now))
        }),
{
    let q = quote::quote_header(prefix, quoter, payee, src_chain, dst, expiry) + tail;
    be::lemma_be_bytes_len(src_chain as nat, 2);
    be::lemma_be_bytes_len(dst as nat, 2);
    be::lemma_be_bytes_len(expiry as nat, 8);
    be::lemma_pow256_widths();
    be::lemma_be_value_of_bytes(src_chain as nat, 2);
    be::lemma_be_value_of_bytes(dst as nat, 2);
    be::lemma_be_value_of_bytes(expiry as nat, 8);
    assert(q.subrange(4, 24) =~= quoter);
    assert(q.subrange(24, 56) =~= payee);
    assert(q.subrange(56, 58) =~= be::be_bytes(src_chain as nat, 2));
    assert(q.subrange(58, 60) =~= be::be_bytes(dst as nat, 2));
    assert(q.subrange(60, 68) =~= be::be_bytes(expiry as nat, 8));
}


/// A request is accepted exactly when the amount is not negative, the quote
/// holds a full 68-byte header, the header's source chain is the configured
/// chain id, its destination chain is the requested one and its expiry lies
/// strictly after `now`; in every other case it is refused.
pub proof fn lemma_acceptance(chain_id: u32, now: u64, dst_chain: u32, amount: i128, q: Seq<u8>)
    ensures
        request_check(chain_id, now, dst_chain, amount, q) is Ok <==> (amount >= 0 && q.len() >= 68
            && quote::quote_src_chain(q) == chain_id && quote::quote_dst_chain(q) == dst_chain
            && quote::quote_expiry(q) > now),
{
}

/// Every quote shorter than the 68-byte header is refused, whatever its
/// bytes and whatever the chains and time; with a non-negative amount the
/// refusal is `InvalidQuote`.
pub proof fn lemma_short_quote_refused(chain_id: u32, now: u64, dst_chain: u32, amount: i128, q: Seq<u8>)
    requires
        q.len() < 68,
    ensures
        request_check(chain_id, now, dst_chain, amount, q) is Err,
        amount >= 0 ==> request_check(chain_id, now, dst_chain, amount, q)
            == Err::<(), ExecutorError>(ExecutorError::InvalidQuote),
{
}

/// A quote whose expiry is at or before `now` is never accepted; when
/// everything else about the request is in order, it is refused as expired.
pub proof fn lemma_expired_quote_refused(chain_id: u32, now: u64, dst_chain: u32, amount: i128, q: Seq<u8>)
    requires
        q.len() >= 68,
        quote::quote_expiry(q) <= now,
    ensures
        request_check(chain_id, now, dst_chain, amount, q) is Err,
        amount >= 0 && quote::quote_src_chain(q) == chain_id && quote::quote_dst_chain(q) == dst_chain
            ==> request_check(chain_id, now, dst_chain, amount, q)
                == Err::<(), ExecutorError>(ExecutorError::QuoteExpired),
{
}

} // verus!
