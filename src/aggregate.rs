//! Reducing probe outcomes to a result: strict for a single command,
//! best-effort for the snapshot and for the addresses of either category.

use vstd::prelude::*;
use crate::datetime::{Date, Datetime, Time};
use crate::model::{CommandResult, Snapshot};
use crate::network::{
    number_dns_servers, numbered_servers, server_views, Interface, Ip, IpCategory,
};
use crate::storage::{distinct_disks, unique_disks, DiskInfo};
use crate::system::{create_named, named_kind, named_value, Cpu, NamedKind, Ram};
use crate::text::texts;

verus! {

/// A fallible probe of the machine or the network.
#[derive(Clone, Copy, Debug, PartialEq, Eq, Structural)]
pub enum Probe {
    PublicIp,
    LocalIp,
    DnsServers,
    Interfaces,
    Disks,
    Cpu,
    Hostname,
    Username,
    DeviceName,
    Os,
    Architecture,
}

/// What failed, in words, when a probe fails.
pub open spec fn probe_context(p: Probe) -> Seq<char> {
    match p {
        Probe::PublicIp => "looking up public ip failed"@,
        Probe::LocalIp => "looking up local ip failed"@,
        Probe::DnsServers => "listing the system's dns servers failed"@,
        Probe::Interfaces => "listing the system's network interfaces failed"@,
        Probe::Disks => "listing the disks failed"@,
        Probe::Cpu => "looking up the system's CPU information failed"@,
        Probe::Hostname => "looking up the system's hostname failed"@,
        Probe::Username => "looking up the user's username failed"@,
        Probe::DeviceName => "looking up the system's device name failed"@,
        Probe::Os => "looking up the system's OS name failed"@,
        Probe::Architecture => "looking up the CPU's architecture failed"@,
    }
}

impl Probe {
    /// What failed, in words, when this probe fails.
    pub fn context(&self) -> (r: &'static str)
        ensures
            r@ == probe_context(*self),
    {
        match self {
            Probe::PublicIp => "looking up public ip failed",
            Probe::LocalIp => "looking up local ip failed",
            Probe::DnsServers => "listing the system's dns servers failed",
            Probe::Interfaces => "listing the system's network interfaces failed",
            Probe::Disks => "listing the disks failed",
            Probe::Cpu => "looking up the system's CPU information failed",
            Probe::Hostname => "looking up the system's hostname failed",
            Probe::Username => "looking up the user's username failed",
            Probe::DeviceName => "looking up the system's device name failed",
            Probe::Os => "looking up the system's OS name failed",
            Probe::Architecture => "looking up the CPU's architecture failed",
        }
    }
}

/// A probe that failed, and why.
#[derive(Debug)]
pub struct Warning {
    pub probe: Probe,
    pub reason: String,
}

/// `context; reason: why`.
pub open spec fn warning_text(w: Warning) -> Seq<char> {
    probe_context(w.probe) + "; reason: "@ + w.reason@
}

impl Warning {
    /// The warning in words.
    pub fn message(&self) -> (r: String)
        ensures
            r@ == warning_text(*self),
    {
        let mut s = String::from_str(self.probe.context());
        s.append("; reason: ");
        s.append(self.reason.as_str());
        s
    }
}

/// The warning of a failed outcome; none for a success.
pub open spec fn failure<T>(p: Probe, r: Result<T, String>) -> Seq<Warning> {
    match r {
        Ok(_) => seq![],
        Err(e) => seq![Warning { probe: p, reason: e }],
    }
}

/// The value of a successful outcome.
pub open spec fn ok_of<T>(r: Result<T, String>) -> Option<T> {
    match r {
        Ok(v) => Some(v),
        Err(_) => None,
    }
}

/// Runs the best-effort policy on one outcome: a value is kept, a failure is
/// recorded as a warning and yields nothing.
pub fn best_effort<T>(outcome: Result<T, String>, probe: Probe, warnings: &mut Vec<Warning>) -> (r: Option<T>)
    ensures
        r == ok_of(outcome),
        final(warnings)@ == old(warnings)@ + failure(probe, outcome),
{
    match outcome {
        Ok(v) => {
            assert(warnings@ =~= old(warnings)@ + failure(probe, outcome));
            Some(v)
        },
        Err(e) => {
            warnings.push(Warning { probe, reason: e });
            assert(warnings@ =~= old(warnings)@ + failure(probe, outcome));
            None
        },
    }
}

/// The category and text of each address.
pub open spec fn ip_views(v: Seq<Ip>) -> Seq<(IpCategory, Seq<char>)> {
    v.map_values(|ip: Ip| (ip.category, ip.address@))
}

/// The entry of an address outcome: none where the probe failed.
pub open spec fn ip_entry(c: IpCategory, r: Result<String, String>) -> Seq<(IpCategory, Seq<char>)> {
    match r {
        Ok(a) => seq![(c, a@)],
        Err(_) => seq![],
    }
}

/// The addresses that the public and local probes yield together: absent
/// when both failed, else the public address before the local one, each
/// where its probe succeeded.
pub open spec fn ip_pair(public: Result<String, String>, local: Result<String, String>) -> Option<
    Seq<(IpCategory, Seq<char>)>,
> {
    if public is Err && local is Err {
        None
    } else {
        Some(ip_entry(IpCategory::Public, public) + ip_entry(IpCategory::Local, local))
    }
}

/// Every outcome of the snapshot's probes. The date, the time, the
/// architecture and the RAM come from calls that cannot fail.
#[derive(Debug)]
pub struct SnapshotProbes {
    pub date: Date,
    pub time: Time,
    pub architecture: String,
    pub ram: Ram,
    pub public_ip: Result<String, String>,
    pub local_ip: Result<String, String>,
    pub dns_servers: Result<Vec<String>, String>,
    pub interfaces: Result<Vec<Interface>, String>,
    pub disks: Result<Vec<DiskInfo>, String>,
    pub cpu: Result<Cpu, String>,
    pub hostname: Result<String, String>,
    pub username: Result<String, String>,
    pub device_name: Result<String, String>,
    pub os: Result<String, String>,
}

/// A snapshot and the warnings of the probes that failed for it.
#[derive(Debug)]
pub struct SnapshotReport {
    pub snapshot: Snapshot,
    pub warnings: Vec<Warning>,
}

/// The warnings of a snapshot's probes: one per failed probe, in the order of
/// the fields.
pub open spec fn snapshot_warnings(p: SnapshotProbes) -> Seq<Warning> {
    failure(Probe::PublicIp, p.public_ip) + failure(Probe::LocalIp, p.local_ip) + failure(
        Probe::DnsServers,
        p.dns_servers,
    ) + failure(Probe::Interfaces, p.interfaces) + failure(Probe::Disks, p.disks) + failure(
        Probe::Cpu,
        p.cpu,
    ) + failure(Probe::Hostname, p.hostname) + failure(Probe::Username, p.username) + failure(
        Probe::DeviceName,
        p.device_name,
    ) + failure(Probe::Os, p.os)
}

/// Whether `s` is the snapshot of the outcomes `p`: the sure facts as they
/// are; each other field present exactly when its probe succeeded, holding
/// what it yielded, with DNS servers numbered after dropping repeats and
/// disks kept at the first occurrence of each name.
pub open spec fn snapshot_of(p: SnapshotProbes, s: Snapshot) -> bool {
    &&& s.date == p.date
    &&& s.time == p.time
    &&& s.architecture == p.architecture
    &&& s.ram == p.ram
    &&& match ip_pair(p.public_ip, p.local_ip) {
        None => s.ips is None,
        Some(v) => s.ips is Some && ip_views(s.ips->Some_0@) == v,
    }
    &&& match p.dns_servers {
        Ok(a) => s.dns_servers is Some && server_views(s.dns_servers->Some_0@) == numbered_servers(
            texts(a@),
        ),
        Err(_) => s.dns_servers is None,
    }
    &&& s.interfaces == ok_of(p.interfaces)
    &&& match p.disks {
        Ok(d) => s.disks is Some && s.disks->Some_0@ == distinct_disks(d@),
        Err(_) => s.disks is None,
    }
    &&& s.cpu == ok_of(p.cpu)
    &&& s.hostname == ok_of(p.hostname)
    &&& s.username == ok_of(p.username)
    &&& s.device_name == ok_of(p.device_name)
    &&& s.os == ok_of(p.os)
}

fn ip_list(public: Option<String>, local: Option<String>) -> (r: Vec<Ip>)
    ensures
        ip_views(r@) == (match public {
            Some(a) => seq![(IpCategory::Public, a@)],
            None => seq![],
        }) + (match local {
            Some(a) => seq![(IpCategory::Local, a@)],
            None => seq![],
        }),
{
    let mut v: Vec<Ip> = Vec::new();
    match public {
        Some(a) => {
            v.push(Ip { address: a, category: IpCategory::Public });
        },
        None => {},
    }
    let ghost mid = v@;
    match local {
        Some(a) => {
            v.push(Ip { address: a, category: IpCategory::Local });
        },
        None => {},
    }
    assert(ip_views(v@) =~= (match public {
        Some(a) => seq![(IpCategory::Public, a@)],
        None => seq![],
    }) + (match local {
        Some(a) => seq![(IpCategory::Local, a@)],
        None => seq![],
    }));
    v
}

/// Takes a snapshot from its probes' outcomes: no failure fails it; each one
/// leaves its field absent and adds one warning naming the probe.
pub fn gather_snapshot(p: SnapshotProbes) -> (r: SnapshotReport)
    ensures
        snapshot_of(p, r.snapshot),
        r.warnings@ == snapshot_warnings(p),
{
    let ghost p0 = p;
    let SnapshotProbes {
        date,
        time,
        architecture,
        ram,
        public_ip,
        local_ip,
        dns_servers,
        interfaces,
        disks,
        cpu,
        hostname,
        username,
        device_name,
        os,
    } = p;
    let mut warnings: Vec<Warning> = Vec::new();
    let public = best_effort(public_ip, Probe::PublicIp, &mut warnings);
    let local = best_effort(local_ip, Probe::LocalIp, &mut warnings);
    let ips = if public.is_none() && local.is_none() {
        None
    } else {
        Some(ip_list(public, local))
    };
    let dns = best_effort(dns_servers, Probe::DnsServers, &mut warnings);
    let dns_servers = match dns {
        Some(a) => Some(number_dns_servers(&a)),
        None => None,
    };
    let interfaces = best_effort(interfaces, Probe::Interfaces, &mut warnings);
    let found = best_effort(disks, Probe::Disks, &mut warnings);
    let disks = match found {
        Some(d) => Some(unique_disks(&d)),
        None => None,
    };
    let cpu = best_effort(cpu, Probe::Cpu, &mut warnings);
    let hostname = best_effort(hostname, Probe::Hostname, &mut warnings);
    let username = best_effort(username, Probe::Username, &mut warnings);
    let device_name = best_effort(device_name, Probe::DeviceName, &mut warnings);
    let os = best_effort(os, Probe::Os, &mut warnings);
    let snapshot = Snapshot {
        date,
        time,
        architecture,
        ram,
        ips,
        dns_servers,
        interfaces,
        disks,
        cpu,
        hostname,
        username,
        device_name,
        os,
    };
    assert(warnings@ =~= snapshot_warnings(p0));
    SnapshotReport { snapshot, warnings }
}

/// A command of the tool.
#[derive(Debug)]
pub enum Command {
    Ips(Option<IpCategory>),
    Dns,
    Date,
    Time,
    Datetime,
    Named(NamedKind),
    Interfaces,
    Disks,
    Cpu,
    Ram,
    Everything,
    /// Measures the round trip to a host, within a timeout expression.
    Latency { host: String, timeout: String },
}

/// The probe behind an identity fact.
pub open spec fn named_probe(k: NamedKind) -> Probe {
    match k {
        NamedKind::Hostname => Probe::Hostname,
        NamedKind::Username => Probe::Username,
        NamedKind::DeviceName => Probe::DeviceName,
        NamedKind::Os => Probe::Os,
        NamedKind::Architecture => Probe::Architecture,
    }
}

/// The fallible probes that a command runs; the snapshot runs all of them
/// but the architecture's.
pub open spec fn command_probes(c: Command) -> Seq<Probe> {
    match c {
        Command::Ips(Some(IpCategory::Public)) => seq![Probe::PublicIp],
        Command::Ips(Some(IpCategory::Local)) => seq![Probe::LocalIp],
        Command::Ips(_) => seq![Probe::PublicIp, Probe::LocalIp],
        Command::Dns => seq![Probe::DnsServers],
        Command::Named(k) => seq![named_probe(k)],
        Command::Interfaces => seq![Probe::Interfaces],
        Command::Disks => seq![Probe::Disks],
        Command::Cpu => seq![Probe::Cpu],
        Command::Everything => seq![
            Probe::PublicIp,
            Probe::LocalIp,
            Probe::DnsServers,
            Probe::Interfaces,
            Probe::Disks,
            Probe::Cpu,
            Probe::Hostname,
            Probe::Username,
            Probe::DeviceName,
            Probe::Os,
        ],
        _ => seq![],
    }
}

fn probe_of(k: NamedKind) -> (r: Probe)
    ensures
        r == named_probe(k),
{
    match k {
        NamedKind::Hostname => Probe::Hostname,
        NamedKind::Username => Probe::Username,
        NamedKind::DeviceName => Probe::DeviceName,
        NamedKind::Os => Probe::Os,
        NamedKind::Architecture => Probe::Architecture,
    }
}

/// Lists the fallible probes that a command needs.
pub fn probes_for(c: &Command) -> (r: Vec<Probe>)
    ensures
        r@ == command_probes(*c),
{
    let r = match c {
        Command::Ips(Some(IpCategory::Public)) => vec![Probe::PublicIp],
        Command::Ips(Some(IpCategory::Local)) => vec![Probe::LocalIp],
        Command::Ips(_) => vec![Probe::PublicIp, Probe::LocalIp],
        Command::Dns => vec![Probe::DnsServers],
        Command::Named(k) => vec![probe_of(*k)],
        Command::Interfaces => vec![Probe::Interfaces],
        Command::Disks => vec![Probe::Disks],
        Command::Cpu => vec![Probe::Cpu],
        Command::Everything => vec![
            Probe::PublicIp,
            Probe::LocalIp,
            Probe::DnsServers,
            Probe::Interfaces,
            Probe::Disks,
            Probe::Cpu,
            Probe::Hostname,
            Probe::Username,
            Probe::DeviceName,
            Probe::Os,
        ],
        _ => Vec::new(),
    };
    assert(r@ =~= command_probes(*c));
    r
}

/// The outcomes of the probes that one command ran. For the addresses, a
/// probe that was not run is `None`: the public one alone for the public
/// category, the local one alone for the local category, both otherwise.
#[derive(Debug)]
pub enum Probed {
    Ips { public: Option<Result<String, String>>, local: Option<Result<String, String>> },
    DnsServers(Result<Vec<String>, String>),
    Interfaces(Result<Vec<Interface>, String>),
    Disks(Result<Vec<DiskInfo>, String>),
    Date(Date),
    Time(Time),
    Datetime(Date, Time),
    Named(NamedKind, Result<String, String>),
    Cpu(Result<Cpu, String>),
    Ram(Ram),
    Everything(SnapshotProbes),
}

/// Why a command produced no result.
#[derive(Debug)]
pub enum CommandError {
    /// The probe that the command needed failed.
    Failed(Warning),
    /// Every alternative of a best-effort group failed.
    AllFailed(Vec<Warning>),
}

/// A command's result, with the warnings of the probes that failed without
/// failing it.
#[derive(Debug)]
pub struct Report {
    pub result: CommandResult,
    pub warnings: Vec<Warning>,
}

/// `r` is a success holding addresses `entries` and warnings `warnings`.
pub open spec fn ips_report(r: Result<Report, CommandError>, entries: Seq<(IpCategory, Seq<char>)>, warnings: Seq<Warning>) -> bool {
    &&& r is Ok
    &&& r->Ok_0.result is Ips
    &&& ip_views(r->Ok_0.result->Ips_0@) == entries
    &&& r->Ok_0.warnings@ == warnings
}

/// `r` is a success without warnings.
pub open spec fn clean(r: Result<Report, CommandError>) -> bool {
    r is Ok && r->Ok_0.warnings@ == Seq::<Warning>::empty()
}

/// `r` is the strict failure of probe `p` with reason `e`.
pub open spec fn failed(r: Result<Report, CommandError>, p: Probe, e: String) -> bool {
    r is Err && r->Err_0 is Failed && r->Err_0->Failed_0 == (Warning { probe: p, reason: e })
}

/// What the addresses' outcomes give: with one probe run, its failure fails
/// the command; with both run, the command fails only when both did, and
/// otherwise warns of the one that failed.
pub open spec fn ips_outcome(public: Option<Result<String, String>>, local: Option<Result<String, String>>, r: Result<Report, CommandError>) -> bool {
    match (public, local) {
        (Some(Ok(a)), None) => ips_report(r, seq![(IpCategory::Public, a@)], seq![]),
        (Some(Err(e)), None) => failed(r, Probe::PublicIp, e),
        (None, Some(Ok(a))) => ips_report(r, seq![(IpCategory::Local, a@)], seq![]),
        (None, Some(Err(e))) => failed(r, Probe::LocalIp, e),
        (Some(pu), Some(lo)) => if pu is Err && lo is Err {
            r is Err && r->Err_0 is AllFailed && r->Err_0->AllFailed_0@ == failure(Probe::PublicIp, pu) + failure(Probe::LocalIp, lo)
        } else {
            ips_report(r, ip_entry(IpCategory::Public, pu) + ip_entry(IpCategory::Local, lo),
                failure(Probe::PublicIp, pu) + failure(Probe::LocalIp, lo))
        },
        (None, None) => false,
    }
}

/// What a strict outcome gives: its value, through `holds`, or the failure
/// of its probe.
pub open spec fn strict<T>(o: Result<T, String>, p: Probe, r: Result<Report, CommandError>, holds: spec_fn(T, CommandResult) -> bool) -> bool {
    match o {
        Ok(v) => clean(r) && holds(v, r->Ok_0.result),
        Err(e) => failed(r, p, e),
    }
}

/// What one command's outcomes give.
pub open spec fn selected(p: Probed, r: Result<Report, CommandError>) -> bool {
    match p {
        Probed::Ips { public, local } => ips_outcome(public, local, r),
        Probed::DnsServers(o) => strict(o, Probe::DnsServers, r, |a: Vec<String>, c: CommandResult|
            c is DnsServers && server_views(c->DnsServers_0@) == numbered_servers(texts(a@))),
        Probed::Interfaces(o) => strict(o, Probe::Interfaces, r, |v: Vec<Interface>, c: CommandResult|
            c == CommandResult::Interfaces(v)),
        Probed::Disks(o) => strict(o, Probe::Disks, r, |d: Vec<DiskInfo>, c: CommandResult|
            c is Disks && c->Disks_0@ == distinct_disks(d@)),
        Probed::Date(d) => clean(r) && r->Ok_0.result == CommandResult::Date(d),
        Probed::Time(t) => clean(r) && r->Ok_0.result == CommandResult::Time(t),
        Probed::Datetime(d, t) => clean(r) && r->Ok_0.result == CommandResult::Datetime(Datetime { date: d, time: t }),
        Probed::Named(k, o) => strict(o, named_probe(k), r, |v: String, c: CommandResult|
            c is Named && named_kind(c->Named_0) == k && named_value(c->Named_0) == v@),
        Probed::Cpu(o) => strict(o, Probe::Cpu, r, |v: Cpu, c: CommandResult| c == CommandResult::Cpu(v)),
        Probed::Ram(m) => clean(r) && r->Ok_0.result == CommandResult::Ram(m),
        Probed::Everything(s) => r is Ok && r->Ok_0.result is Everything
            && snapshot_of(s, r->Ok_0.result->Everything_0) && r->Ok_0.warnings@ == snapshot_warnings(s),
    }
}

/// Whether the outcomes hold what the command needs: at least one address
/// probe for the addresses.
pub open spec fn probed_wf(p: Probed) -> bool {
    match p {
        Probed::Ips { public, local } => public is Some || local is Some,
        _ => true,
    }
}

fn ok_report(result: CommandResult) -> (r: Result<Report, CommandError>)
    ensures
        clean(r),
        r->Ok_0.result == result,
{
    let r = Ok(Report { result, warnings: Vec::new() });
    assert(r->Ok_0.warnings@ =~= Seq::<Warning>::empty());
    r
}

fn fail(probe: Probe, reason: String) -> (r: Result<Report, CommandError>)
    ensures
        failed(r, probe, reason),
{
    Err(CommandError::Failed(Warning { probe, reason }))
}

fn gather_ips(public: Option<Result<String, String>>, local: Option<Result<String, String>>) -> (r: Result<Report, CommandError>)
    requires
        public is Some || local is Some,
    ensures
        ips_outcome(public, local, r),
{
    match (public, local) {
        (Some(Ok(a)), None) => {
            let ghost av = a@;
            let v = ip_list(Some(a), None);
            assert(ip_views(v@) =~= seq![(IpCategory::Public, av)]);
            ok_report(CommandResult::Ips(v))
        },
        (Some(Err(e)), None) => fail(Probe::PublicIp, e),
        (None, Some(Ok(a))) => {
            let ghost av = a@;
            let v = ip_list(None, Some(a));
            assert(ip_views(v@) =~= seq![(IpCategory::Local, av)]);
            ok_report(CommandResult::Ips(v))
        },
        (None, Some(Err(e))) => fail(Probe::LocalIp, e),
        (Some(pu), Some(lo)) => {
            let ghost (pu0, lo0) = (pu, lo);
            let mut warnings: Vec<Warning> = Vec::new();
            let public = best_effort(pu, Probe::PublicIp, &mut warnings);
            let local = best_effort(lo, Probe::LocalIp, &mut warnings);
            assert(warnings@ =~= failure(Probe::PublicIp, pu0) + failure(Probe::LocalIp, lo0));
            if public.is_none() && local.is_none() {
                Err(CommandError::AllFailed(warnings))
            } else {
                let v = ip_list(public, local);
                proof {
                    assert(ip_entry(IpCategory::Public, pu0) =~= match public {
                        Some(a) => seq![(IpCategory::Public, a@)],
                        None => seq![],
                    });
                    assert(ip_entry(IpCategory::Local, lo0) =~= match local {
                        Some(a) => seq![(IpCategory::Local, a@)],
                        None => seq![],
                    });
                }
                Ok(Report { result: CommandResult::Ips(v), warnings })
            }
        },
        (None, None) => {
            proof {
                assert(false);
            }
            Err(CommandError::AllFailed(Vec::new()))
        },
    }
}

/// Reduces the outcomes of the probes that one command ran to its result.
/// Every command is strict, a failed probe failing it and naming the probe,
/// but for the addresses of both categories, which fail only when both
/// probes failed. The snapshot never fails.
pub fn gather_selected(p: Probed) -> (r: Result<Report, CommandError>)
    requires
        probed_wf(p),
    ensures
        selected(p, r),
{
    match p {
        Probed::Ips { public, local } => gather_ips(public, local),
        Probed::DnsServers(o) => match o {
            Ok(a) => ok_report(CommandResult::DnsServers(number_dns_servers(&a))),
            Err(e) => fail(Probe::DnsServers, e),
        },
        Probed::Interfaces(o) => match o {
            Ok(v) => ok_report(CommandResult::Interfaces(v)),
            Err(e) => fail(Probe::Interfaces, e),
        },
        Probed::Disks(o) => match o {
            Ok(d) => ok_report(CommandResult::Disks(unique_disks(&d))),
            Err(e) => fail(Probe::Disks, e),
        },
        Probed::Date(d) => ok_report(CommandResult::Date(d)),
        Probed::Time(t) => ok_report(CommandResult::Time(t)),
        Probed::Datetime(d, t) => ok_report(CommandResult::Datetime(Datetime { date: d, time: t })),
        Probed::Named(k, o) => match o {
            Ok(v) => ok_report(CommandResult::Named(create_named(v, k))),
            Err(e) => fail(probe_of(k), e),
        },
        Probed::Cpu(o) => match o {
            Ok(c) => ok_report(CommandResult::Cpu(c)),
            Err(e) => fail(Probe::Cpu, e),
        },
        Probed::Ram(m) => ok_report(CommandResult::Ram(m)),
        Probed::Everything(s) => {
            let report = gather_snapshot(s);
            Ok(Report { result: CommandResult::Everything(report.snapshot), warnings: report.warnings })
        },
    }
}

/// The texts of the warnings, each after `; `.
pub open spec fn reasons(ws: Seq<Warning>) -> Seq<char>
    decreases ws.len(),
{
    if ws.len() == 0 {
        seq![]
    } else {
        reasons(ws.drop_last()) + "; "@ + warning_text(ws.last())
    }
}

/// The error in words: the failed probe's warning, or, where every address
/// probe failed, `listing ips failed` and each probe's warning.
pub open spec fn error_text(e: CommandError) -> Seq<char> {
    match e {
        CommandError::Failed(w) => warning_text(w),
        CommandError::AllFailed(ws) => "listing ips failed"@ + reasons(ws@),
    }
}

impl CommandError {
    /// The error in words.
    pub fn message(&self) -> (r: String)
        ensures
            r@ == error_text(*self),
    {
        match self {
            CommandError::Failed(w) => w.message(),
            CommandError::AllFailed(ws) => {
                let mut s = String::from_str("listing ips failed");
                let mut i: usize = 0;
                while i < ws.len()
                    invariant
                        i <= ws@.len(),
                        s@ == "listing ips failed"@ + reasons(ws@.subrange(0, i as int)),
                    decreases ws@.len() - i,
                {
                    s.append("; ");
                    s.append(ws[i].message().as_str());
                    let ghost next = ws@.subrange(0, i + 1);
                    assert(next.drop_last() =~= ws@.subrange(0, i as int));
                    i = i + 1;
                    assert(s@ =~= "listing ips failed"@ + reasons(next));
                }
                assert(ws@.subrange(0, i as int) =~= ws@);
                s
            },
        }
    }
}

/// A snapshot field is present exactly when its probe succeeded, and the
/// addresses are absent exactly when both address probes failed; the date,
/// the time, the RAM and the architecture are those that were taken,
/// whatever failed.
pub proof fn lemma_snapshot_presence(p: SnapshotProbes, s: Snapshot)
    requires
        snapshot_of(p, s),
    ensures
        s.ips is None <==> (p.public_ip is Err && p.local_ip is Err),
        s.dns_servers is Some <==> p.dns_servers is Ok,
        s.interfaces is Some <==> p.interfaces is Ok,
        s.disks is Some <==> p.disks is Ok,
        s.cpu is Some <==> p.cpu is Ok,
        s.hostname is Some <==> p.hostname is Ok,
        s.username is Some <==> p.username is Ok,
        s.device_name is Some <==> p.device_name is Ok,
        s.os is Some <==> p.os is Ok,
        s.date == p.date && s.time == p.time && s.ram == p.ram && s.architecture == p.architecture,
{
}

/// The exit status of a command: 0 for a result, also one that came with
/// warnings; 1 for a failure.
pub open spec fn exit_status_of(r: Result<Report, CommandError>) -> u8 {
    if r is Ok { 0 } else { 1 }
}

/// The exit status of a command's outcome.
pub fn exit_status(r: &Result<Report, CommandError>) -> (c: u8)
    ensures
        c == exit_status_of(*r),
{
    match r {
        Ok(_) => 0,
        Err(_) => 1,
    }
}

/// With only the public address asked for, its probe's failure, whatever
/// the reason, fails the command with status 1 and a message that names the
/// public address.
pub proof fn lemma_public_only_failure(reason: String, r: Result<Report, CommandError>)
    requires
        selected(Probed::Ips { public: Some(Err(reason)), local: None }, r),
    ensures
        exit_status_of(r) == 1,
        r->Err_0 is Failed,
        error_text(r->Err_0) == "looking up public ip failed; reason: "@ + reason@,
{
    assert("looking up public ip failed"@ + "; reason: "@ + reason@ =~= "looking up public ip failed; reason: "@
        + reason@) by {
        reveal_strlit("looking up public ip failed");
        reveal_strlit("; reason: ");
        reveal_strlit("looking up public ip failed; reason: ");
    }
}

/// With addresses of either category asked for, a failed public probe and a
/// local one that found `address` give status 0 and exactly one entry, the
/// local address, with a warning for the public probe.
pub proof fn lemma_local_only_success(reason: String, address: String, r: Result<Report, CommandError>)
    requires
        selected(Probed::Ips { public: Some(Err(reason)), local: Some(Ok(address)) }, r),
    ensures
        exit_status_of(r) == 0,
        r->Ok_0.result is Ips,
        ip_views(r->Ok_0.result->Ips_0@) == seq![(IpCategory::Local, address@)],
        r->Ok_0.warnings@ == seq![Warning { probe: Probe::PublicIp, reason }],
{
    assert(ip_entry(IpCategory::Public, Err(reason)) + ip_entry(IpCategory::Local, Ok(address)) =~= seq![
        (IpCategory::Local, address@),
    ]);
    assert(failure(Probe::PublicIp, Err::<String, String>(reason)) + failure(Probe::LocalIp, Ok::<String, String>(address)) =~= seq![
        Warning { probe: Probe::PublicIp, reason },
    ]);
}

} // verus!
