//! What the core hands to the management layer: the events it emits and the
//! proxy auto-configuration script.

use crate::model::{FlowEntry, Proxy, Stats};
use crate::text::{decimal, decimal_text, same_text};
use vstd::prelude::*;
use vstd::string::StringExecFns;

verus! {

/// An event for observers.
#[derive(Clone, Debug)]
pub enum WsEvent {
    /// The counters as they stand.
    StatsUpdated { stats: Stats },
    /// A transaction that was served.
    FlowUpdated { flow: FlowEntry },
}

/// The script that points a browser at the proxy listening on `address` and `port`.
pub open spec fn pac_text(address: Seq<char>, port: u16) -> Seq<char> {
    "function FindProxyForURL(url, host) {\n  return 'PROXY "@ + address + ":"@ + decimal_text(port as nat)
        + "';\n}"@
}

/// The proxy auto-configuration script for the proxy at `address` and `port`.
pub fn pac_file(address: &str, port: u16) -> (script: String)
    ensures
        script@ == pac_text(address@, port),
{
    let mut script = "function FindProxyForURL(url, host) {\n  return 'PROXY ".to_owned();
    script.append(address);
    script.append(":");
    let digits = decimal(port as u64);
    script.append(digits.as_str());
    script.append("';\n}");
    script
}

/// The address that a browser on this machine reaches the proxy at: the
/// address it listens on, or the loopback address where it listens on all.
pub open spec fn pac_address(bind_address: Seq<char>) -> Seq<char> {
    if bind_address == "0.0.0.0"@ {
        "127.0.0.1"@
    } else {
        bind_address
    }
}

/// The proxy auto-configuration script for the configured proxy.
pub fn pac_file_for(proxy: &Proxy) -> (script: String)
    ensures
        script@ == pac_text(pac_address(proxy.bind_address@), proxy.port),
{
    if same_text(proxy.bind_address.as_str(), "0.0.0.0") {
        pac_file("127.0.0.1", proxy.port)
    } else {
        pac_file(proxy.bind_address.as_str(), proxy.port)
    }
}

/// The event that reports the counters.
pub fn stats_event(stats: Stats) -> (event: WsEvent)
    ensures
        event matches WsEvent::StatsUpdated { stats: s } && s == stats,
{
    WsEvent::StatsUpdated { stats }
}

/// The event that reports a transaction.
pub fn flow_event(flow: FlowEntry) -> (event: WsEvent)
    ensures
        event matches WsEvent::FlowUpdated { flow: f } && f == flow,
{
    WsEvent::FlowUpdated { flow }
}

} // verus!
