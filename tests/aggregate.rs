use my_device::aggregate::{
    best_effort, exit_status, gather_selected, gather_snapshot, probes_for, Command, CommandError, Probe,
    Probed, SnapshotProbes,
};
use my_device::datetime::{Date, Time};
use my_device::model::CommandResult;
use my_device::network::{Interface, IpCategory};
use my_device::storage::DiskInfo;
use my_device::system::{Cpu, NamedKind, Ram};

fn probes_all_failing() -> SnapshotProbes {
    let fail = || Err(String::from("unreachable"));
    SnapshotProbes {
        date: Date::new(2023, 4, 8, 5, 14),
        time: Time { hour: 1, minute: 2, second: 3, timezone: String::from("+00:00"), offset_micros: None },
        architecture: String::from("aarch64"),
        ram: Ram { total: 8, used: 4, free: 4, available: 4 },
        public_ip: fail(),
        local_ip: fail(),
        dns_servers: Err(String::from("no resolv.conf")),
        interfaces: Err(String::from("denied")),
        disks: Err(String::from("denied")),
        cpu: Err(String::from("none")),
        hostname: fail(),
        username: fail(),
        device_name: fail(),
        os: fail(),
    }
}

fn disk(name: &str, total: u64) -> DiskInfo {
    DiskInfo { name: String::from(name), kind: String::from("SSD"), total_space: total, free_space: 0 }
}

#[test]
fn snapshot_without_ips_keeps_sure_facts() {
    let report = gather_snapshot(probes_all_failing());
    let s = &report.snapshot;
    assert!(s.ips.is_none());
    assert_eq!(s.date, Date::new(2023, 4, 8, 5, 14));
    assert_eq!(s.time.hour, 1);
    assert_eq!(s.architecture, "aarch64");
    assert_eq!(s.ram, Ram { total: 8, used: 4, free: 4, available: 4 });
    assert!(s.dns_servers.is_none() && s.interfaces.is_none() && s.disks.is_none() && s.cpu.is_none());
    assert!(s.hostname.is_none() && s.username.is_none() && s.device_name.is_none() && s.os.is_none());
    let probes: Vec<Probe> = report.warnings.iter().map(|w| w.probe).collect();
    assert_eq!(
        probes,
        vec![
            Probe::PublicIp,
            Probe::LocalIp,
            Probe::DnsServers,
            Probe::Interfaces,
            Probe::Disks,
            Probe::Cpu,
            Probe::Hostname,
            Probe::Username,
            Probe::DeviceName,
            Probe::Os,
        ]
    );
    assert_eq!(report.warnings[2].message(), "listing the system's dns servers failed; reason: no resolv.conf");
}

#[test]
fn snapshot_fields_present_when_probes_succeed() {
    let mut p = probes_all_failing();
    p.local_ip = Ok(String::from("10.0.0.2"));
    p.dns_servers = Ok(vec![String::from("1.1.1.1"), String::from("1.1.1.1"), String::from("8.8.8.8")]);
    p.interfaces = Ok(Vec::new());
    p.disks = Ok(vec![disk("a", 1), disk("b", 2), disk("a", 3)]);
    p.cpu = Ok(Cpu { brand: String::from("Acme"), core_count: 2, frequency: 1000 });
    p.hostname = Ok(String::from("box"));
    let report = gather_snapshot(p);
    let s = &report.snapshot;
    let ips = s.ips.as_ref().unwrap();
    assert_eq!(ips.len(), 1);
    assert_eq!(ips[0].category, IpCategory::Local);
    assert_eq!(ips[0].address, "10.0.0.2");
    let dns = s.dns_servers.as_ref().unwrap();
    assert_eq!(dns.len(), 2);
    assert_eq!((dns[1].position, dns[1].address.as_str()), (2, "8.8.8.8"));
    // an empty list is a success that found nothing, not an absence
    assert_eq!(s.interfaces.as_ref().map(|v| v.len()), Some(0));
    let disks = s.disks.as_ref().unwrap();
    assert_eq!(disks.iter().map(|d| (d.name.as_str(), d.total_space)).collect::<Vec<_>>(), vec![("a", 1), ("b", 2)]);
    assert_eq!(s.hostname.as_deref(), Some("box"));
    assert!(s.cpu.is_some());
    assert_eq!(report.warnings.len(), 4);
    assert_eq!(report.warnings[0].probe, Probe::PublicIp);
}

#[test]
fn public_ip_only_fails_without_network() {
    let r = gather_selected(Probed::Ips { public: Some(Err(String::from("timed out"))), local: None });
    assert_eq!(exit_status(&r), 1);
    let e = r.unwrap_err();
    assert!(matches!(&e, CommandError::Failed(w) if w.probe == Probe::PublicIp));
    let message = e.message();
    assert!(message.contains("public ip"));
    assert_eq!(message, "looking up public ip failed; reason: timed out");
}

#[test]
fn any_ip_with_only_local_succeeding() {
    let r = gather_selected(Probed::Ips {
        public: Some(Err(String::from("timed out"))),
        local: Some(Ok(String::from("192.168.1.4"))),
    });
    assert_eq!(exit_status(&r), 0);
    let report = r.unwrap();
    match &report.result {
        CommandResult::Ips(v) => {
            assert_eq!(v.len(), 1);
            assert_eq!(v[0].category, IpCategory::Local);
            assert_eq!(v[0].address, "192.168.1.4");
        },
        other => panic!("unexpected result {:?}", other),
    }
    assert_eq!(report.warnings.len(), 1);
    assert_eq!(report.warnings[0].probe, Probe::PublicIp);
}

#[test]
fn any_ip_with_both_succeeding() {
    let r = gather_selected(Probed::Ips {
        public: Some(Ok(String::from("203.0.113.7"))),
        local: Some(Ok(String::from("10.0.0.2"))),
    });
    let report = r.unwrap();
    match &report.result {
        CommandResult::Ips(v) => {
            assert_eq!(v.iter().map(|i| i.category).collect::<Vec<_>>(), vec![IpCategory::Public, IpCategory::Local]);
        },
        other => panic!("unexpected result {:?}", other),
    }
    assert!(report.warnings.is_empty());
}

#[test]
fn any_ip_with_both_failing() {
    let r = gather_selected(Probed::Ips {
        public: Some(Err(String::from("timed out"))),
        local: Some(Err(String::from("no route"))),
    });
    assert_eq!(exit_status(&r), 1);
    let e = r.unwrap_err();
    assert_eq!(
        e.message(),
        "listing ips failed; looking up public ip failed; reason: timed out; looking up local ip failed; reason: no route"
    );
}

#[test]
fn local_ip_only() {
    let r = gather_selected(Probed::Ips { public: None, local: Some(Ok(String::from("10.0.0.2"))) }).unwrap();
    assert!(matches!(&r.result, CommandResult::Ips(v) if v.len() == 1 && v[0].category == IpCategory::Local));
}

#[test]
fn strict_commands_fail_with_context() {
    let e = gather_selected(Probed::Disks(Err(String::from("denied")))).unwrap_err();
    assert_eq!(e.message(), "listing the disks failed; reason: denied");
    let e = gather_selected(Probed::Named(NamedKind::Hostname, Err(String::from("x")))).unwrap_err();
    assert_eq!(e.message(), "looking up the system's hostname failed; reason: x");
    let e = gather_selected(Probed::Interfaces(Err(String::from("y")))).unwrap_err();
    assert!(matches!(e, CommandError::Failed(w) if w.probe == Probe::Interfaces));
}

#[test]
fn disks_command_deduplicates_by_name() {
    let r = gather_selected(Probed::Disks(Ok(vec![disk("a", 1), disk("a", 2), disk("c", 3)]))).unwrap();
    match &r.result {
        CommandResult::Disks(v) => {
            assert_eq!(v.iter().map(|d| (d.name.as_str(), d.total_space)).collect::<Vec<_>>(), vec![("a", 1), ("c", 3)]);
        },
        other => panic!("unexpected result {:?}", other),
    }
}

#[test]
fn named_command_carries_its_tag() {
    let r = gather_selected(Probed::Named(NamedKind::Os, Ok(String::from("Linux")))).unwrap();
    match &r.result {
        CommandResult::Named(n) => {
            assert_eq!(n.kind(), NamedKind::Os);
            assert_eq!(n.value(), "Linux");
            assert_eq!(n.kind().field(), "os");
        },
        other => panic!("unexpected result {:?}", other),
    }
}

#[test]
fn list_keys() {
    let r = gather_selected(Probed::Interfaces(Ok(vec![Interface { name: String::from("en0"), ip: String::from("::1") }]))).unwrap();
    assert_eq!(r.result.list_key(), Some("interfaces"));
    let r = gather_selected(Probed::Ram(Ram { total: 1, used: 1, free: 0, available: 0 })).unwrap();
    assert_eq!(r.result.list_key(), None);
}

#[test]
fn probes_per_command() {
    assert_eq!(probes_for(&Command::Ips(Some(IpCategory::Public))), vec![Probe::PublicIp]);
    assert_eq!(probes_for(&Command::Ips(None)), vec![Probe::PublicIp, Probe::LocalIp]);
    assert_eq!(probes_for(&Command::Ips(Some(IpCategory::Any))), vec![Probe::PublicIp, Probe::LocalIp]);
    assert_eq!(probes_for(&Command::Named(NamedKind::DeviceName)), vec![Probe::DeviceName]);
    assert!(probes_for(&Command::Date).is_empty());
    assert_eq!(probes_for(&Command::Everything).len(), 10);
}

#[test]
fn best_effort_records_failures() {
    let mut warnings = Vec::new();
    assert_eq!(best_effort::<u8>(Ok(3), Probe::Cpu, &mut warnings), Some(3));
    assert!(warnings.is_empty());
    assert_eq!(best_effort::<u8>(Err(String::from("gone")), Probe::Cpu, &mut warnings), None);
    assert_eq!(warnings.len(), 1);
    assert_eq!(warnings[0].reason, "gone");
}
