//! Error codes of the Wormhole Executor contract.

use vstd::prelude::*;

verus! {

/// Errors that a request for execution can be refused with.
///
/// Their contract error numbers are given by [`ExecutorError::code`].
#[derive(Copy, Clone, Debug, PartialEq, Eq, PartialOrd, Ord, Structural)]
pub enum ExecutorError {
    /// The quote's expiry is less than or equal to the current ledger
    /// timestamp at the time of the call.
    QuoteExpired,
    /// The quote's source chain does not match the Wormhole chain id
    /// configured at construction.
    QuoteSrcChainMismatch,
    /// The quote's destination chain does not match the `dst_chain` argument.
    QuoteDstChainMismatch,
    /// The `amount` argument is negative.
    InvalidAmount,
    /// The signed quote is shorter than the 68-byte header.
    InvalidQuote,
}

impl ExecutorError {
    /// The contract error number of each error.
    pub open spec fn spec_code(self) -> u32 {
        match self {
            ExecutorError::QuoteExpired => 11,
            ExecutorError::QuoteSrcChainMismatch => 12,
            ExecutorError::QuoteDstChainMismatch => 13,
            ExecutorError::InvalidAmount => 14,
            ExecutorError::InvalidQuote => 15,
        }
    }

    /// The contract error number that the error is reported with.
    pub fn code(&self) -> (c: u32)
        ensures
            c == self.spec_code(),
    {
        match self {
            ExecutorError::QuoteExpired => 11,
            ExecutorError::QuoteSrcChainMismatch => 12,
            ExecutorError::QuoteDstChainMismatch => 13,
            ExecutorError::InvalidAmount => 14,
            ExecutorError::InvalidQuote => 15,
        }
    }
}

/// Distinct errors have distinct numbers, so a number names one error.
pub proof fn lemma_codes_distinct(a: ExecutorError, b: ExecutorError)
    ensures
        a.spec_code() == b.spec_code() <==> a == b,
{
}

} // verus!
