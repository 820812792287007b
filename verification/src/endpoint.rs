//! Addresses of the upstream service, by network and transport.

use vstd::prelude::*;
use crate::config::{Config, Network};

verus! {

/// Streaming endpoint of the production network.
pub const INFURA_MAINNET_WS: &'static str = "wss://mainnet.infura.io/ws/v3";

/// Streaming endpoint of the test network.
pub const INFURA_TESTNET_WS: &'static str = "wss://goerli.infura.io/ws/v3";

/// Request/response endpoint of the production network.
pub const INFURA_MAINNET_HTTP: &'static str = "https://mainnet.infura.io/v3";

/// Request/response endpoint of the test network.
pub const INFURA_TESTNET_HTTP: &'static str = "https://goerli.infura.io/v3";

/// The request/response endpoint of `network`, without credential.
pub open spec fn http_base(network: Network) -> Seq<char> {
    match network {
        Network::Mainnet => INFURA_MAINNET_HTTP@,
        Network::Testnet => INFURA_TESTNET_HTTP@,
    }
}

/// The streaming endpoint of `network`, without credential.
pub open spec fn ws_base(network: Network) -> Seq<char> {
    match network {
        Network::Mainnet => INFURA_MAINNET_WS@,
        Network::Testnet => INFURA_TESTNET_WS@,
    }
}

/// An endpoint with its credential: base, a slash, the key.
pub open spec fn with_key(base: Seq<char>, api_key: Seq<char>) -> Seq<char> {
    base + seq!['/'] + api_key
}

/// The address from which the fork seeds its state.
pub open spec fn fork_source(config: Config) -> Seq<char> {
    with_key(http_base(config.network), config.api_key@)
}

/// The address of the live event stream.
pub open spec fn upstream(config: Config) -> Seq<char> {
    with_key(ws_base(config.network), config.api_key@)
}

fn join(base: &str, api_key: &str) -> (url: String)
    ensures
        url@ == with_key(base@, api_key@),
{
    proof {
        reveal_strlit("/");
    }
    let mut url = String::from_str(base);
    url.append("/");
    url.append(api_key);
    assert("/"@ =~= seq!['/']);
    url
}

/// Address of the request/response endpoint that the fork is seeded from.
pub fn fork_source_url(config: &Config) -> (url: String)
    ensures
        url@ == fork_source(*config),
{
    match config.network {
        Network::Mainnet => join(INFURA_MAINNET_HTTP, config.api_key.as_str()),
        Network::Testnet => join(INFURA_TESTNET_HTTP, config.api_key.as_str()),
    }
}

/// Address of the streaming endpoint on which the live chain is followed.
pub fn upstream_url(config: &Config) -> (url: String)
    ensures
        url@ == upstream(*config),
{
    match config.network {
        Network::Mainnet => join(INFURA_MAINNET_WS, config.api_key.as_str()),
        Network::Testnet => join(INFURA_TESTNET_WS, config.api_key.as_str()),
    }
}

} // verus!
