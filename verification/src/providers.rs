//! Providers: the sources of updates, as far as the registry and the
//! indexer need to know them.

use vstd::prelude::*;

verus! {

/// How a provider reaches its source.
#[derive(Clone, Copy, Debug, PartialEq, Eq, Structural)]
pub enum RpcProviderType {
    Geyser,
    WebSocket,
    Grpc,
    Http,
}

/// What every provider tells of itself. Starting a provider and subscribing
/// with it are the business of the task that runs it. Nothing is assumed of
/// what an implementation answers.
pub trait RpcProvider {
    /// The name under which the provider wants to be registered.
    fn name(&self) -> &str;

    /// How the provider reaches its source.
    fn provider_type(&self) -> RpcProviderType;
}

/// What every storage plugin tells of itself. Nothing is assumed of what an
/// implementation answers.
pub trait StoragePlugin {
    /// The name under which the plugin wants to be registered.
    fn name(&self) -> &str;
}

/// A provider that reads a streaming feed at a given address.
#[derive(Clone, Debug, PartialEq, Eq)]
pub struct GeyserRpcProvider {
    url: String,
}

impl GeyserRpcProvider {
    /// A provider for the feed at `url`.
    pub fn new(url: String) -> (p: Self)
        ensures
            p.url_text() == url@,
    {
        Self { url }
    }

    /// The address of the feed.
    pub closed spec fn url_text(&self) -> Seq<char> {
        self.url@
    }

    /// The address of the feed.
    pub fn url(&self) -> (r: &str)
        ensures
            r@ == self.url_text(),
    {
        self.url.as_str()
    }
}

impl RpcProvider for GeyserRpcProvider {
    fn name(&self) -> (r: &str)
        ensures
            r@ == "geyser"@,
    {
        "geyser"
    }

    fn provider_type(&self) -> (r: RpcProviderType)
        ensures
            r == RpcProviderType::Geyser,
    {
        RpcProviderType::Geyser
    }
}

/// The common ground of streaming-feed providers.
#[derive(Clone, Copy, Debug, PartialEq, Eq, Structural)]
pub struct BaseGeyserProvider {}

impl RpcProvider for BaseGeyserProvider {
    fn name(&self) -> (r: &str)
        ensures
            r@ == "base_geyser"@,
    {
        "base_geyser"
    }

    fn provider_type(&self) -> (r: RpcProviderType)
        ensures
            r == RpcProviderType::Geyser,
    {
        RpcProviderType::Geyser
    }
}

} // verus!
