//! Shared data types: statistics, settings, cache entries, rules and flow records.
//!
//! Every type that owns text has a view in which the text is a `Seq<char>`;
//! contracts elsewhere in the crate are stated over those views.

use vstd::prelude::*;

verus! {

/// A point-in-time copy of the cache counters.
#[derive(Clone, Copy, Debug, PartialEq, Eq, Structural)]
pub struct Stats {
    pub hits: u64,
    pub misses: u64,
    pub total_requests: u64,
    pub disk_items: u64,
    pub total_disk_size_bytes: u64,
    pub bytes_saved: u64,
}

impl Default for Stats {
    fn default() -> (r: Stats)
        ensures
            r == (Stats {
                hits: 0,
                misses: 0,
                total_requests: 0,
                disk_items: 0,
                total_disk_size_bytes: 0,
                bytes_saved: 0,
            }),
    {
        Stats {
            hits: 0,
            misses: 0,
            total_requests: 0,
            disk_items: 0,
            total_disk_size_bytes: 0,
            bytes_saved: 0,
        }
    }
}

/// Where the proxy listens.
#[derive(Clone, Debug)]
pub struct Proxy {
    pub port: u16,
    pub bind_address: String,
}

/// Where the management interface listens.
#[derive(Clone, Debug)]
pub struct Management {
    pub port: u16,
    pub bind_address: String,
}

/// Where the root certificate and its key are kept.
#[derive(Clone, Debug)]
pub struct Certs {
    pub path: String,
}

/// Where cached bodies are kept.
#[derive(Clone, Debug)]
pub struct Cache {
    pub path: String,
}

/// An IP address as its octets.
#[derive(Clone, Copy, Debug)]
pub enum IpAddress {
    V4([u8; 4]),
    V6([u8; 16]),
}

/// Settings of the name server that answers every query with one address.
#[derive(Clone, Debug)]
pub struct Dns {
    pub enabled: bool,
    pub port: u16,
    pub bind_address: String,
    pub response_ip: IpAddress,
}

impl Default for Dns {
    /// Disabled, on port 53 of every interface, answering with the loopback address.
    fn default() -> (r: Dns)
        ensures
            !r.enabled,
            r.port == 53,
            r.bind_address@ == "0.0.0.0"@,
            r.response_ip matches IpAddress::V4(octets) && octets@ == seq![127u8, 0u8, 0u8, 1u8],
    {
        Dns {
            enabled: false,
            port: 53,
            bind_address: "0.0.0.0".to_owned(),
            response_ip: IpAddress::V4([127, 0, 0, 1]),
        }
    }
}

/// What the rule engine decides for a request.
#[derive(Clone, Copy, Debug, PartialEq, Eq, Structural)]
pub enum Action {
    Allow,
    Block,
    BypassCache,
}

/// When a rule applies.
#[derive(Clone, Debug)]
pub enum RuleCondition {
    /// The URL's domain equals this text.
    Domain(String),
    /// The whole URL matches this pattern, in which `*` stands for any run of
    /// characters and `?` for any one character.
    UrlPattern(String),
}

/// The view of a [`RuleCondition`].
pub enum ConditionView {
    Domain(Seq<char>),
    UrlPattern(Seq<char>),
}

impl View for RuleCondition {
    type V = ConditionView;

    open spec fn view(&self) -> ConditionView {
        match *self {
            RuleCondition::Domain(d) => ConditionView::Domain(d@),
            RuleCondition::UrlPattern(p) => ConditionView::UrlPattern(p@),
        }
    }
}

/// A named condition with the action to take when it holds.
#[derive(Clone, Debug)]
pub struct Rule {
    pub name: String,
    pub condition: RuleCondition,
    pub action: Action,
}

/// The view of a [`Rule`].
pub struct RuleView {
    pub name: Seq<char>,
    pub condition: ConditionView,
    pub action: Action,
}

impl View for Rule {
    type V = RuleView;

    open spec fn view(&self) -> RuleView {
        RuleView { name: self.name@, condition: self.condition@, action: self.action }
    }
}

/// The views of a list of rules, in order.
pub open spec fn rule_views(rules: Seq<Rule>) -> Seq<RuleView> {
    Seq::new(rules.len(), |i: int| rules[i]@)
}

/// Everything the service is configured with.
#[derive(Clone, Debug)]
pub struct Settings {
    pub proxy: Proxy,
    pub certs: Certs,
    pub cache: Cache,
    pub management: Management,
    pub dns: Dns,
    pub rules: Vec<Rule>,
}

/// One cached body as shown to an operator: the URL it was stored under and its size.
#[derive(Clone, Debug)]
pub struct CacheEntryInfo {
    pub key: String,
    pub size_bytes: u64,
}

/// The view of a [`CacheEntryInfo`].
pub struct CacheEntryView {
    pub key: Seq<char>,
    pub size_bytes: u64,
}

impl View for CacheEntryInfo {
    type V = CacheEntryView;

    open spec fn view(&self) -> CacheEntryView {
        CacheEntryView { key: self.key@, size_bytes: self.size_bytes }
    }
}

/// A record of one proxied transaction, for observers.
#[derive(Clone, Debug)]
pub struct FlowEntry {
    pub id: String,
    pub method: String,
    pub uri: String,
    pub status_code: u16,
    pub response_size_bytes: u64,
    pub is_hit: bool,
}

/// The view of a [`FlowEntry`].
pub struct FlowView {
    pub id: Seq<char>,
    pub method: Seq<char>,
    pub uri: Seq<char>,
    pub status_code: u16,
    pub response_size_bytes: u64,
    pub is_hit: bool,
}

impl View for FlowEntry {
    type V = FlowView;

    open spec fn view(&self) -> FlowView {
        FlowView {
            id: self.id@,
            method: self.method@,
            uri: self.uri@,
            status_code: self.status_code,
            response_size_bytes: self.response_size_bytes,
            is_hit: self.is_hit,
        }
    }
}

} // verus!
