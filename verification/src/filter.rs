//! The log filter that the relay installs on the live chain.

use vstd::prelude::*;
use vstd::string::StringSliceAdditionalSpecFns;

verus! {

/// Signature of the event that the relay forwards.
pub const SWAP_SIGNATURE: &'static str = "Swap(address,uint256,uint256,uint256,uint256,address)";

/// Keccak-256 digest of a byte string, as computed by `ethers::utils::keccak256`.
pub uninterp spec fn keccak256_digest(input: Seq<u8>) -> Seq<u8>;

/// Calls `ethers::utils::keccak256` on `input`. The contract gives the
/// digest a name and claims nothing else of it: the same bytes always hash
/// to the same 32 bytes.
#[verifier::external_body]
fn keccak256(input: &[u8]) -> (digest: [u8; 32])
    ensures
        digest@ == keccak256_digest(input@),
{
    ethers::utils::keccak256(input)
}

/// A topic-and-start-block filter for a log subscription.
#[derive(Clone, Copy, Debug, PartialEq, Eq)]
pub struct EventFilter {
    /// Logs match when their first topic equals this hash.
    pub topic0: [u8; 32],
    /// First block from which logs are delivered.
    pub from_block: u64,
}

/// The first topic of every `Swap` log: the digest of the signature's bytes.
pub open spec fn swap_topic() -> Seq<u8> {
    keccak256_digest(SWAP_SIGNATURE.spec_bytes())
}

/// Builds the filter with the given first topic and starting block.
pub fn filter_from(topic0: [u8; 32], from_block: u64) -> (filter: EventFilter)
    ensures
        filter.topic0 == topic0,
        filter.from_block == from_block,
{
    EventFilter { topic0, from_block }
}

/// The filter for `Swap` logs that starts at block `head`: the chain's head
/// at the moment the subscription is installed, so that no earlier log is
/// replayed and none from `head` on is left out.
pub fn swap_filter(head: u64) -> (filter: EventFilter)
    ensures
        filter.topic0@ == swap_topic(),
        filter.from_block == head,
{
    let topic0 = keccak256(SWAP_SIGNATURE.as_bytes());
    filter_from(topic0, head)
}

} // verus!
