//! The result model: one value per invocation, read by both projections.

use vstd::prelude::*;
use crate::datetime::{Date, Datetime, Time};
use crate::network::{DnsServer, Interface, Ip, Ping};
use crate::storage::DiskInfo;
use crate::system::{Cpu, Named, Ram};

verus! {

/// Every fact taken at one instant. The date, the time of day, the
/// architecture and the RAM are always there; each other field is absent
/// exactly when its probe failed, and an empty list means that the probe
/// found nothing.
#[derive(Debug)]
pub struct Snapshot {
    pub date: Date,
    pub time: Time,
    pub architecture: String,
    pub ram: Ram,
    pub ips: Option<Vec<Ip>>,
    pub dns_servers: Option<Vec<DnsServer>>,
    pub interfaces: Option<Vec<Interface>>,
    pub disks: Option<Vec<DiskInfo>>,
    pub cpu: Option<Cpu>,
    pub hostname: Option<String>,
    pub username: Option<String>,
    pub device_name: Option<String>,
    pub os: Option<String>,
}

/// The outcome of one command: a single fact, a named list of facts, or the
/// whole snapshot.
#[derive(Debug)]
pub enum CommandResult {
    Ips(Vec<Ip>),
    DnsServers(Vec<DnsServer>),
    Interfaces(Vec<Interface>),
    Disks(Vec<DiskInfo>),
    Date(Date),
    Time(Time),
    Datetime(Datetime),
    Named(Named),
    Cpu(Cpu),
    Ram(Ram),
    Ping(Ping),
    Everything(Snapshot),
}

/// The key under which a list result is serialized, if the result is a list.
pub open spec fn list_key(r: CommandResult) -> Option<Seq<char>> {
    match r {
        CommandResult::Ips(_) => Some("ips"@),
        CommandResult::DnsServers(_) => Some("dns_servers"@),
        CommandResult::Interfaces(_) => Some("interfaces"@),
        CommandResult::Disks(_) => Some("disks"@),
        _ => None,
    }
}

impl CommandResult {
    /// The key under which a list result is serialized; `None` for a single
    /// fact or a snapshot, which are serialized as their own fields.
    pub fn list_key(&self) -> (r: Option<&'static str>)
        ensures
            match r {
                Some(k) => list_key(*self) == Some(k@),
                None => list_key(*self) is None,
            },
    {
        match self {
            CommandResult::Ips(_) => Some("ips"),
            CommandResult::DnsServers(_) => Some("dns_servers"),
            CommandResult::Interfaces(_) => Some("interfaces"),
            CommandResult::Disks(_) => Some("disks"),
            _ => None,
        }
    }
}

} // verus!
