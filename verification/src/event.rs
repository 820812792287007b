//! The values that travel through the relay: logs and the fork's key.

use vstd::prelude::*;

verus! {

/// One log of the live chain, as the subscription yields it. A value is
/// never changed once it has been observed.
#[derive(Clone, Debug, PartialEq, Eq)]
pub struct Event {
    /// The contract that emitted the log.
    pub address: [u8; 20],
    /// The indexed arguments; the first is the hash of the event signature.
    pub topics: Vec<[u8; 32]>,
    /// The arguments that are not indexed.
    pub data: Vec<u8>,
    /// Hash of the block that holds the log.
    pub block_hash: Option<[u8; 32]>,
    /// Number of the block that holds the log.
    pub block_number: Option<u64>,
    /// Hash of the transaction that produced the log.
    pub transaction_hash: Option<[u8; 32]>,
    /// Position of that transaction in its block.
    pub transaction_index: Option<u64>,
    /// Position of the log in its block, as four 64-bit limbs, lowest first.
    pub log_index: Option<[u64; 4]>,
    /// Position of the log in its transaction, as four 64-bit limbs, lowest first.
    pub transaction_log_index: Option<[u64; 4]>,
    /// Kind of the log, where the node reports one.
    pub log_type: Option<String>,
    /// Whether a reorganisation of the chain removed the log.
    pub removed: Option<bool>,
}

/// The private key of one of the fork's funded accounts.
#[derive(Clone, Copy, Debug, PartialEq, Eq)]
pub struct SigningKey {
    /// The key as a big-endian scalar.
    pub bytes: [u8; 32],
}

} // verus!
