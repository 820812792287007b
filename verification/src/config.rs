//! What the caller chooses before the relay starts.

use vstd::prelude::*;

verus! {

/// The live chain that is mirrored and listened to.
#[derive(Clone, Copy, Debug, PartialEq, Eq, Structural)]
pub enum Network {
    /// The production network.
    Mainnet,
    /// The test network.
    Testnet,
}

/// The relay's settings. A value is never changed after it is built; every
/// task that needs the settings gets a copy of its own.
#[derive(Debug, PartialEq, Eq)]
pub struct Config {
    /// Which live chain to fork and to listen to.
    pub network: Network,
    /// Credential appended to the upstream service's endpoints.
    pub api_key: String,
    /// Seconds between two blocks that the fork produces.
    pub block_time: u64,
    /// How many times a failed log is tried again.
    pub tx_retry_times: u32,
    /// Milliseconds to wait before a log is tried again.
    pub tx_retry_interval: u64,
    /// Marks a trial run. The relay itself decides nothing by it.
    pub is_test: bool,
}

impl Clone for Config {
    fn clone(&self) -> (copy: Self)
        ensures
            copy == *self,
    {
        Config {
            network: self.network,
            api_key: self.api_key.clone(),
            block_time: self.block_time,
            tx_retry_times: self.tx_retry_times,
            tx_retry_interval: self.tx_retry_interval,
            is_test: self.is_test,
        }
    }
}

} // verus!
