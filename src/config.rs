use vstd::prelude::*;

verus! {

/// Settings of one client run.
#[derive(Clone, Debug)]
pub struct Config {
    pub server: Server,
}

/// The resolver to query and the proxy to reach it through.
#[derive(Clone, Debug)]
pub struct Server {
    /// Optional base URL of a forwarding proxy.
    pub proxy: Option<String>,
    /// Base URL of the oblivious target resolver.
    pub target: String,
}

} // verus!
