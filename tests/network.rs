use my_device::format::Severity;
use my_device::storage::DiskInfo;
use my_device::system::{cpus, CpuCore, Ram};
use my_device::network::{
    format_mac, mac_addresses, number_dns_servers, ping_once, HardwareAddress, Interface, Ip, IpCategory,
    PingError,
};

#[test]
fn category_labels() {
    assert_eq!(IpCategory::Public.label(), "public");
    assert_eq!(IpCategory::Local.label(), "local");
    assert_eq!(IpCategory::Any.label(), "*");
}

#[test]
fn ip_and_interface_lines() {
    let ip = Ip { address: String::from("203.0.113.7"), category: IpCategory::Public };
    assert_eq!(ip.line(), "public\t203.0.113.7");
    let i = Interface { name: String::from("en0"), ip: String::from("10.0.0.2") };
    assert_eq!(i.line(), "en0\t10.0.0.2");
}

#[test]
fn dns_servers_deduplicated_and_numbered() {
    let addresses = vec![
        String::from("1.1.1.1"),
        String::from("8.8.8.8"),
        String::from("1.1.1.1"),
        String::from("9.9.9.9"),
        String::from("8.8.8.8"),
    ];
    let servers = number_dns_servers(&addresses);
    let got: Vec<(u64, &str)> = servers.iter().map(|d| (d.position, d.address.as_str())).collect();
    assert_eq!(got, vec![(1, "1.1.1.1"), (2, "8.8.8.8"), (3, "9.9.9.9")]);
}

#[test]
fn dns_servers_empty() {
    assert!(number_dns_servers(&Vec::new()).is_empty());
}

#[test]
fn mac_formatting() {
    assert_eq!(format_mac(&[0x0a, 0x1b, 0x2c, 0x3d, 0x4e, 0xff]), "0A:1B:2C:3D:4E:FF");
}

#[test]
fn mac_addresses_skip_unspecified() {
    let raw = vec![
        HardwareAddress { name: String::from("lo"), octets: [0; 6] },
        HardwareAddress { name: String::from("en0"), octets: [0, 0, 0, 0, 0, 1] },
    ];
    let macs = mac_addresses(&raw);
    assert_eq!(macs.len(), 1);
    assert_eq!(macs[0].name, "en0");
    assert_eq!(macs[0].address, "00:00:00:00:00:01");
    assert_eq!(macs[0].line(), "en0\t00:00:00:00:00:01");
}

#[test]
fn ping_within_timeout() {
    let p = ping_once(String::from("192.0.2.1"), 12_345, 5000).unwrap();
    assert_eq!(p.line(), "192.0.2.1\t12.345 ms");
    let edge = ping_once(String::from("192.0.2.1"), 5_000_000, 5000);
    assert!(edge.is_ok());
}

#[test]
fn ping_after_timeout() {
    let p = ping_once(String::from("192.0.2.1"), 5_000_001, 5000);
    assert_eq!(p.unwrap_err(), PingError::TimedOut);
}

#[test]
fn cpus_from_the_first_core() {
    let cores = vec![
        CpuCore { brand: String::from("Acme X1"), frequency: 3200 },
        CpuCore { brand: String::from("Acme X1"), frequency: 1200 },
    ];
    let c = cpus(&cores).unwrap();
    assert_eq!((c.brand.as_str(), c.core_count, c.frequency), ("Acme X1", 2, 3200));
}

#[test]
fn cpus_none_listed() {
    assert_eq!(cpus(&Vec::new()).unwrap_err(), "no CPU information is available");
}

#[test]
fn disk_severity_bands() {
    let disk = |total: u64, free: u64| DiskInfo {
        name: String::from("d"),
        kind: String::from("SSD"),
        total_space: total,
        free_space: free,
    };
    assert_eq!(disk(1000, 50).usage_severity(), Severity::Critical);
    assert_eq!(disk(1000, 250).usage_severity(), Severity::Warning);
    assert_eq!(disk(1000, 900).usage_severity(), Severity::Nominal);
    // more free than the capacity counts as nothing used
    assert_eq!(disk(10, 20).usage_severity(), Severity::Nominal);
    assert_eq!(disk(0, 0).usage_severity(), Severity::Nominal);
}

#[test]
fn ram_severity() {
    let r = Ram { total: 100, used: 95, free: 5, available: 5 };
    assert_eq!(r.usage_severity(), Severity::Critical);
}
