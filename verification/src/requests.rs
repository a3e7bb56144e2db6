//! Encoders for Wormhole Executor delivery-request payloads.
//!
//! Each function returns the canonical big-endian byte layout that an
//! integrator passes as the `request` argument of a request for execution.

use crate::be;
use vstd::prelude::*;

verus! {

/// Request type prefix of a version 1 VAA request: `ERV1`.
pub const REQ_VAA_V1: [u8; 4] = [0x45, 0x52, 0x56, 0x31];

/// Request type prefix of a version 1 NTT request: `ERN1`.
pub const REQ_NTT_V1: [u8; 4] = [0x45, 0x52, 0x4e, 0x31];

/// Request type prefix of a version 1 CCTP request: `ERC1`.
pub const REQ_CCTP_V1: [u8; 4] = [0x45, 0x52, 0x43, 0x31];

/// Request type prefix of a version 2 CCTP request: `ERC2`.
pub const REQ_CCTP_V2: [u8; 4] = [0x45, 0x52, 0x43, 0x32];

/// The prefix `ERV1`.
pub open spec fn vaa_v1_prefix() -> Seq<u8> {
    seq![0x45u8, 0x52u8, 0x56u8, 0x31u8]
}

/// The prefix `ERN1`.
pub open spec fn ntt_v1_prefix() -> Seq<u8> {
    seq![0x45u8, 0x52u8, 0x4eu8, 0x31u8]
}

/// The prefix `ERC1`.
pub open spec fn cctp_v1_prefix() -> Seq<u8> {
    seq![0x45u8, 0x52u8, 0x43u8, 0x31u8]
}

/// The prefix `ERC2`.
pub open spec fn cctp_v2_prefix() -> Seq<u8> {
    seq![0x45u8, 0x52u8, 0x43u8, 0x32u8]
}

/// A version 1 VAA request: `ERV1`, the emitter chain (2 bytes), the
/// emitter address (32 bytes) and the sequence number (8 bytes).
pub open spec fn vaa_v1_request(chain: u16, address: Seq<u8>, sequence: u64) -> Seq<u8> {
    vaa_v1_prefix() + be::be_bytes(chain as nat, 2) + address + be::be_bytes(sequence as nat, 8)
}

/// A version 1 NTT request: `ERN1`, the source chain (2 bytes), the source
/// manager (32 bytes) and the message id (32 bytes).
pub open spec fn ntt_v1_request(source_chain: u16, source_manager: Seq<u8>, message_id: Seq<u8>) -> Seq<u8> {
    ntt_v1_prefix() + be::be_bytes(source_chain as nat, 2) + source_manager + message_id
}

/// A version 1 CCTP request: `ERC1`, the source domain (4 bytes) and the
/// nonce (8 bytes).
pub open spec fn cctp_v1_request(source_domain: u32, nonce: u64) -> Seq<u8> {
    cctp_v1_prefix() + be::be_bytes(source_domain as nat, 4) + be::be_bytes(nonce as nat, 8)
}

/// A version 2 CCTP request: `ERC2` followed by the auto-discovery flag 1.
pub open spec fn cctp_v2_request() -> Seq<u8> {
    cctp_v2_prefix() + seq![1u8]
}

/// Appends every byte of `bytes`.
fn push_all(out: &mut Vec<u8>, bytes: &[u8])
    ensures
        final(out)@ == old(out)@ + bytes@,
{
    out.extend_from_slice(bytes);
    assert(out@ =~= old(out)@ + bytes@);
}

/// Encodes a version 1 VAA request payload.
pub fn make_vaa_v1_request(chain: u16, address: [u8; 32], sequence: u64) -> (out: Vec<u8>)
    ensures
        out@ == vaa_v1_request(chain, address@, sequence),
{
    let mut out: Vec<u8> = Vec::with_capacity(4 + 2 + 32 + 8);
    push_all(&mut out, REQ_VAA_V1.as_slice());
    be::push_u16_be(&mut out, chain);
    push_all(&mut out, address.as_slice());
    be::push_u64_be(&mut out, sequence);
    assert(REQ_VAA_V1@ =~= vaa_v1_prefix());
    out
}

/// Encodes a version 1 NTT request payload.
pub fn make_ntt_v1_request(source_chain: u16, source_manager: [u8; 32], message_id: [u8; 32]) -> (out: Vec<u8>)
    ensures
        out@ == ntt_v1_request(source_chain, source_manager@, message_id@),
{
    let mut out: Vec<u8> = Vec::with_capacity(4 + 2 + 32 + 32);
    push_all(&mut out, REQ_NTT_V1.as_slice());
    be::push_u16_be(&mut out, source_chain);
    push_all(&mut out, source_manager.as_slice());
    push_all(&mut out, message_id.as_slice());
    assert(REQ_NTT_V1@ =~= ntt_v1_prefix());
    out
}

/// Encodes a version 1 CCTP request payload.
pub fn make_cctp_v1_request(source_domain: u32, nonce: u64) -> (out: Vec<u8>)
    ensures
        out@ == cctp_v1_request(source_domain, nonce),
{
    let mut out: Vec<u8> = Vec::with_capacity(4 + 4 + 8);
    push_all(&mut out, REQ_CCTP_V1.as_slice());
    be::push_u32_be(&mut out, source_domain);
    be::push_u64_be(&mut out, nonce);
    assert(REQ_CCTP_V1@ =~= cctp_v1_prefix());
    out
}

/// Encodes a version 2 CCTP request payload. The trailing byte flags that
/// the Executor auto-detects the event off-chain.
pub fn make_cctp_v2_request() -> (out: Vec<u8>)
    ensures
        out@ == cctp_v2_request(),
{
    let mut out: Vec<u8> = Vec::with_capacity(4 + 1);
    push_all(&mut out, REQ_CCTP_V2.as_slice());
    out.push(1);  // auto discovery
    assert(REQ_CCTP_V2@ =~= cctp_v2_prefix());
    assert(out@ =~= cctp_v2_request());
    out
}


/// A version 1 VAA request is 46 bytes: its prefix, then the chain, the
/// address and the sequence, each readable back at its fixed offset.
pub proof fn lemma_vaa_v1_layout(chain: u16, address: Seq<u8>, sequence: u64)
    requires
        address.len() == 32,
    ensures
        vaa_v1_request(chain, address, sequence).len() == 46,
        vaa_v1_request(chain, address, sequence).subrange(0, 4) == vaa_v1_prefix(),
        be::be_value(vaa_v1_request(chain, address, sequence).subrange(4, 6)) == chain,
        vaa_v1_request(chain, address, sequence).subrange(6, 38) == address,
        be::be_value(vaa_v1_request(chain, address, sequence).subrange(38, 46)) == sequence,
{
    let p = vaa_v1_request(chain, address, sequence);
    be::lemma_be_bytes_len(chain as nat, 2);
    be::lemma_be_bytes_len(sequence as nat, 8);
    be::lemma_pow256_widths();
    be::lemma_be_value_of_bytes(chain as nat, 2);
    be::lemma_be_value_of_bytes(sequence as nat, 8);
    assert(p.subrange(0, 4) =~= vaa_v1_prefix());
    assert(p.subrange(4, 6) =~= be::be_bytes(chain as nat, 2));
    assert(p.subrange(6, 38) =~= address);
    assert(p.subrange(38, 46) =~= be::be_bytes(sequence as nat, 8));
}

/// A version 1 NTT request is 70 bytes: its prefix, then the source chain,
/// the source manager and the message id, each readable back at its fixed
/// offset.
pub proof fn lemma_ntt_v1_layout(source_chain: u16, source_manager: Seq<u8>, message_id: Seq<u8>)
    requires
        source_manager.len() == 32,
        message_id.len() == 32,
    ensures
        ntt_v1_request(source_chain, source_manager, message_id).len() == 70,
        ntt_v1_request(source_chain, source_manager, message_id).subrange(0, 4) == ntt_v1_prefix(),
        be::be_value(ntt_v1_request(source_chain, source_manager, message_id).subrange(4, 6)) == source_chain,
        ntt_v1_request(source_chain, source_manager, message_id).subrange(6, 38) == source_manager,
        ntt_v1_request(source_chain, source_manager, message_id).subrange(38, 70) == message_id,
{
    let p = ntt_v1_request(source_chain, source_manager, message_id);
    be::lemma_be_bytes_len(source_chain as nat, 2);
    be::lemma_pow256_widths();
    be::lemma_be_value_of_bytes(source_chain as nat, 2);
    assert(p.subrange(0, 4) =~= ntt_v1_prefix());
    assert(p.subrange(4, 6) =~= be::be_bytes(source_chain as nat, 2));
    assert(p.subrange(6, 38) =~= source_manager);
    assert(p.subrange(38, 70) =~= message_id);
}

/// A version 1 CCTP request is 16 bytes: its prefix, then the source domain
/// and the nonce, each readable back at its fixed offset.
pub proof fn lemma_cctp_v1_layout(source_domain: u32, nonce: u64)
    ensures
        cctp_v1_request(source_domain, nonce).len() == 16,
        cctp_v1_request(source_domain, nonce).subrange(0, 4) == cctp_v1_prefix(),
        be::be_value(cctp_v1_request(source_domain, nonce).subrange(4, 8)) == source_domain,
        be::be_value(cctp_v1_request(source_domain, nonce).subrange(8, 16)) == nonce,
{
    let p = cctp_v1_request(source_domain, nonce);
    be::lemma_be_bytes_len(source_domain as nat, 4);
    be::lemma_be_bytes_len(nonce as nat, 8);
    be::lemma_pow256_widths();
    be::lemma_be_value_of_bytes(source_domain as nat, 4);
    be::lemma_be_value_of_bytes(nonce as nat, 8);
    assert(p.subrange(0, 4) =~= cctp_v1_prefix());
    assert(p.subrange(4, 8) =~= be::be_bytes(source_domain as nat, 4));
    assert(p.subrange(8, 16) =~= be::be_bytes(nonce as nat, 8));
}

/// A version 2 CCTP request is 5 bytes: its prefix and the auto-discovery
/// flag 1.
pub proof fn lemma_cctp_v2_layout()
    ensures
        cctp_v2_request().len() == 5,
        cctp_v2_request().subrange(0, 4) == cctp_v2_prefix(),
        cctp_v2_request()[4] == 1,
{
    assert(cctp_v2_request().subrange(0, 4) =~= cctp_v2_prefix());
}

/// Distinct arguments give distinct version 1 VAA requests.
pub proof fn lemma_vaa_v1_injective(
    chain1: u16, address1: Seq<u8>, sequence1: u64,
    chain2: u16, address2: Seq<u8>, sequence2: u64,
)
    requires
        address1.len() == 32,
        address2.len() == 32,
        vaa_v1_request(chain1, address1, sequence1) == vaa_v1_request(chain2, address2, sequence2),
    ensures
        chain1 == chain2,
        address1 == address2,
        sequence1 == sequence2,
{
    lemma_vaa_v1_layout(chain1, address1, sequence1);
    lemma_vaa_v1_layout(chain2, address2, sequence2);
}

/// Distinct arguments give distinct version 1 NTT requests.
pub proof fn lemma_ntt_v1_injective(
    source_chain1: u16, source_manager1: Seq<u8>, message_id1: Seq<u8>,
    source_chain2: u16, source_manager2: Seq<u8>, message_id2: Seq<u8>,
)
    requires
        source_manager1.len() == 32,
        message_id1.len() == 32,
        source_manager2.len() == 32,
        message_id2.len() == 32,
        ntt_v1_request(source_chain1, source_manager1, message_id1)
            == ntt_v1_request(source_chain2, source_manager2, message_id2),
    ensures
        source_chain1 == source_chain2,
        source_manager1 == source_manager2,
        message_id1 == message_id2,
{
    lemma_ntt_v1_layout(source_chain1, source_manager1, message_id1);
    lemma_ntt_v1_layout(source_chain2, source_manager2, message_id2);
}

/// Distinct arguments give distinct version 1 CCTP requests.
pub proof fn lemma_cctp_v1_injective(source_domain1: u32, nonce1: u64, source_domain2: u32, nonce2: u64)
    requires
        cctp_v1_request(source_domain1, nonce1) == cctp_v1_request(source_domain2, nonce2),
    ensures
        source_domain1 == source_domain2,
        nonce1 == nonce2,
{
    lemma_cctp_v1_layout(source_domain1, nonce1);
    lemma_cctp_v1_layout(source_domain2, nonce2);
}

/// Requests of different kinds never coincide: their 4-byte prefixes
/// differ pairwise.
pub proof fn lemma_request_kinds_distinct(
    chain: u16, address: Seq<u8>, sequence: u64,
    source_chain: u16, source_manager: Seq<u8>, message_id: Seq<u8>,
    source_domain: u32, nonce: u64,
)
    requires
        address.len() == 32,
        source_manager.len() == 32,
        message_id.len() == 32,
    ensures
        vaa_v1_request(chain, address, sequence) != ntt_v1_request(source_chain, source_manager, message_id),
        vaa_v1_request(chain, address, sequence) != cctp_v1_request(source_domain, nonce),
        vaa_v1_request(chain, address, sequence) != cctp_v2_request(),
        ntt_v1_request(source_chain, source_manager, message_id) != cctp_v1_request(source_domain, nonce),
        ntt_v1_request(source_chain, source_manager, message_id) != cctp_v2_request(),
        cctp_v1_request(source_domain, nonce) != cctp_v2_request(),
{
    lemma_vaa_v1_layout(chain, address, sequence);
    lemma_ntt_v1_layout(source_chain, source_manager, message_id);
    lemma_cctp_v1_layout(source_domain, nonce);
    lemma_cctp_v2_layout();
    let v = vaa_v1_request(chain, address, sequence);
    let n = ntt_v1_request(source_chain, source_manager, message_id);
    let c1 = cctp_v1_request(source_domain, nonce);
    let c2 = cctp_v2_request();
    assert(v.subrange(0, 4)[2] != n.subrange(0, 4)[2]);
    assert(v.subrange(0, 4)[2] != c1.subrange(0, 4)[2]);
    assert(v.subrange(0, 4)[2] != c2.subrange(0, 4)[2]);
    assert(n.subrange(0, 4)[2] != c1.subrange(0, 4)[2]);
    assert(n.subrange(0, 4)[2] != c2.subrange(0, 4)[2]);
    assert(c1.subrange(0, 4)[3] != c2.subrange(0, 4)[3]);
}

} // verus!
