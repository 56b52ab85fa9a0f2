//! What the proxy is told to do and what it tells the window.

use std::time::SystemTime;
use vstd::prelude::*;

verus! {

/// `std::time::SystemTime`, a moment on the machine's clock.
#[verifier::external_type_specification]
#[verifier::external_body]
pub struct ExSystemTime(SystemTime);

/// `<SystemTime as Clone>::clone` copies the moment.
pub assume_specification[ <SystemTime as Clone>::clone ](t: &SystemTime) -> (r: SystemTime)
    ensures
        r == *t,
;

/// One request that went through the proxy, with the answer to it.
#[derive(Debug, Clone)]
pub struct ProxyEntry {
    pub id: usize,
    pub method: String,
    pub path: String,
    pub request_headers: Vec<(String, String)>,
    pub request_body: String,
    pub response_status: u16,
    pub response_headers: Vec<(String, String)>,
    pub response_body: String,
    pub timestamp: SystemTime,
}

/// Where the proxy listens and where it sends requests on to.
#[derive(Debug, Clone)]
pub struct ProxyConfig {
    pub upstream_url: String,
    pub bind_addr: String,
    pub bind_port: u16,
}

/// What the proxy reports.
#[derive(Debug, Clone)]
pub enum ProxyEvent {
    /// A request was answered.
    Entry(Box<ProxyEntry>),
    /// The proxy could not start.
    Error(String),
    /// The proxy listens.
    Started,
    /// The proxy was told to stop, and did.
    Stopped,
}

/// Pairs of strings as pairs of texts.
pub open spec fn text_pairs(pairs: Seq<(String, String)>) -> Seq<(Seq<char>, Seq<char>)> {
    pairs.map_values(|p: (String, String)| (p.0@, p.1@))
}

} // verus!
