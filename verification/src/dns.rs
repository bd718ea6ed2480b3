//! The answers of the intercepting name server: every name resolves to one
//! configured address, for the record type that can carry it.

use crate::model::IpAddress;
use vstd::prelude::*;

verus! {

/// The record type that a query asks for.
#[derive(Clone, Copy, Debug, PartialEq, Eq, Structural)]
pub enum QueryType {
    /// An IPv4 address.
    A,
    /// An IPv6 address.
    Aaaa,
    /// Anything else.
    Other,
}

/// Why a query gets no answer.
#[derive(Clone, Copy, Debug, PartialEq, Eq, Structural)]
pub enum DnsRefusal {
    /// There is no such record.
    NxDomain,
    /// The server does not answer this kind of request.
    Refused,
}

/// One address record.
#[derive(Clone, Copy, Debug)]
pub struct DnsAnswer {
    pub address: IpAddress,
    /// Seconds for which the record may be kept.
    pub ttl: u32,
}

/// The seconds for which an answer may be kept.
pub open spec fn answer_ttl() -> u32 {
    60
}

/// Whether a record of this type can carry this address.
pub open spec fn carries(query: QueryType, address: IpAddress) -> bool {
    ||| query == QueryType::A && address is V4
    ||| query == QueryType::Aaaa && address is V6
}

/// Whether `r` answers `query` for a server that resolves every name to
/// `address`: the address itself, for 60 seconds, where the record type can
/// carry it, and no such record otherwise.
pub open spec fn is_answer(r: Result<DnsAnswer, DnsRefusal>, query: QueryType, address: IpAddress) -> bool {
    match r {
        Ok(answer) => carries(query, address) && answer.address == address && answer.ttl == answer_ttl(),
        Err(refusal) => !carries(query, address) && refusal == DnsRefusal::NxDomain,
    }
}

/// A zone that answers every name with one address.
#[derive(Clone, Copy, Debug)]
pub struct InterceptAuthority {
    response_ip: IpAddress,
}

impl InterceptAuthority {
    /// The address that every name resolves to.
    pub closed spec fn address(&self) -> IpAddress {
        self.response_ip
    }

    /// A zone that answers every name with `response_ip`.
    pub fn new(response_ip: IpAddress) -> (zone: InterceptAuthority)
        ensures
            zone.address() == response_ip,
    {
        InterceptAuthority { response_ip }
    }

    /// The address that every name resolves to.
    pub fn response_ip(&self) -> (address: IpAddress)
        ensures
            address == self.address(),
    {
        self.response_ip
    }

    /// Zone transfers are never allowed.
    pub fn is_axfr_allowed(&self) -> (allowed: bool)
        ensures
            !allowed,
    {
        false
    }

    /// The answer to a query for any name.
    pub fn lookup(&self, query: QueryType) -> (r: Result<DnsAnswer, DnsRefusal>)
        ensures
            is_answer(r, query, self.address()),
    {
        match (query, self.response_ip) {
            (QueryType::A, IpAddress::V4(_)) => Ok(DnsAnswer { address: self.response_ip, ttl: 60 }),
            (QueryType::Aaaa, IpAddress::V6(_)) => Ok(DnsAnswer { address: self.response_ip, ttl: 60 }),
            _ => Err(DnsRefusal::NxDomain),
        }
    }

    /// The answer to a request for the records that prove a name's absence:
    /// always a refusal.
    pub fn get_nsec_records(&self) -> (r: Result<DnsAnswer, DnsRefusal>)
        ensures
            r is Err && r->Err_0 == DnsRefusal::Refused,
    {
        Err(DnsRefusal::Refused)
    }
}

} // verus!
