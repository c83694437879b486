use my_device::datetime::{ClockSync, Date, Datetime, OffsetBand, Time, offset_band};
use my_device::model::{CommandResult, Snapshot};
use my_device::network::{DnsServer, Interface, Ip, IpCategory};
use my_device::render::{collect_network_rows, network_table, render_snapshot, render_text, sub_label_width};
use my_device::storage::DiskInfo;
use my_device::system::{create_named, Cpu, NamedKind, Ram};

fn time(offset: Option<i64>) -> Time {
    Time { hour: 9, minute: 5, second: 3, timezone: String::from("+02:00"), offset_micros: offset }
}

fn bare_snapshot() -> Snapshot {
    Snapshot {
        date: Date::new(2023, 4, 8, 5, 14),
        time: time(None),
        architecture: String::from("x86_64"),
        ram: Ram { total: 1024, used: 512, free: 512, available: 512 },
        ips: None,
        dns_servers: None,
        interfaces: None,
        disks: None,
        cpu: None,
        hostname: None,
        username: None,
        device_name: None,
        os: None,
    }
}

#[test]
fn date_line_and_week() {
    let d = Date::new(2023, 4, 8, 5, 14);
    assert_eq!(d.week, 14);
    assert_eq!(d.line(), "Saturday, 8 April, 2023, week 14");
}

#[test]
fn iso_week_of_new_year_sunday() {
    // 2023-01-01 was a Sunday in ISO week 52 of 2022
    let d = Date::new(2023, 1, 1, 6, 52);
    assert_eq!(d.week, 52);
    assert_eq!(d.line(), "Sunday, 1 January, 2023, week 52");
}

#[test]
fn negative_year() {
    let d = Date::new(-44, 3, 15, 0, 11);
    assert!(d.line().contains(", -44, "));
}

#[test]
fn time_without_offset() {
    assert_eq!(time(None).text(), "9:5:3 UTC +02:00");
}

#[test]
fn time_with_offsets_and_bands() {
    assert_eq!(time(Some(67_200)).text(), "9:5:3 UTC +02:00\n+0.0672 seconds (in sync)");
    assert_eq!(time(Some(-250_000)).text(), "9:5:3 UTC +02:00\n-0.2500 seconds (slightly off)");
    assert_eq!(time(Some(3_000_000)).text(), "9:5:3 UTC +02:00\n+3.0000 seconds (significantly off)");
    assert_eq!(offset_band(99_999), OffsetBand::InSync);
    assert_eq!(offset_band(-100_000), OffsetBand::SlightlyOff);
    assert_eq!(offset_band(i64::MIN), OffsetBand::SignificantlyOff);
}

#[test]
fn time_fields_unpadded() {
    let t = Time { hour: 23, minute: 59, second: 0, timezone: String::from("UTC"), offset_micros: None };
    assert_eq!(t.text(), "23:59:0 UTC UTC");
}

#[test]
fn time_degrades_on_timeout() {
    let t = time(None).settle(ClockSync::TimedOut);
    assert_eq!(t.offset_micros, None);
    assert_eq!(t.hour, 9);
    let t = time(None).settle(ClockSync::Failed);
    assert_eq!(t.offset_micros, None);
    let t = time(None).settle(ClockSync::Offset(-12));
    assert_eq!(t.offset_micros, Some(-12));
}

#[test]
fn datetime_text() {
    let dt = Datetime { date: Date::new(2023, 4, 8, 5, 14), time: time(None) };
    assert_eq!(dt.text(), "Saturday, 8 April, 2023, week 14\n9:5:3 UTC +02:00");
}

#[test]
fn cpu_ram_and_disk_lines() {
    let c = Cpu { brand: String::from("Acme X1"), core_count: 8, frequency: 3200 };
    assert_eq!(c.line(), "Acme X1, 8 cores running at 3200 MHz");
    let r = Ram { total: 16 * 1024 * 1024 * 1024, used: 4 * 1024 * 1024 * 1024, free: 0, available: 0 };
    assert_eq!(r.line(), "16.00 GiB installed, 4.00 GiB in use (25.0%)");
    let d = DiskInfo {
        name: String::from("disk0"),
        kind: String::from("SSD"),
        total_space: 1024 * 1024 * 1024,
        free_space: 256 * 1024 * 1024,
    };
    assert_eq!(d.line(), "disk0, SSD, 256.00 MiB free of 1.00 GiB (25.0% free)");
}

#[test]
fn list_results_are_newline_joined() {
    let r = CommandResult::Ips(vec![
        Ip { address: String::from("203.0.113.7"), category: IpCategory::Public },
        Ip { address: String::from("10.0.0.2"), category: IpCategory::Local },
    ]);
    assert_eq!(render_text(&r), "public\t203.0.113.7\nlocal\t10.0.0.2");
    let r = CommandResult::DnsServers(vec![
        DnsServer { position: 1, address: String::from("1.1.1.1") },
        DnsServer { position: 2, address: String::from("8.8.8.8") },
    ]);
    assert_eq!(render_text(&r), "1.1.1.1\n8.8.8.8");
    assert_eq!(render_text(&CommandResult::Interfaces(Vec::new())), "");
}

#[test]
fn named_result_is_its_value() {
    let r = CommandResult::Named(create_named(String::from("box"), NamedKind::Hostname));
    assert_eq!(render_text(&r), "box");
}

#[test]
fn snapshot_skips_absent_fields() {
    let text = render_snapshot(&bare_snapshot());
    let expected = "System\n  architecture  x86_64\n  ram           1.00 KiB installed, 512.00 B in use (50.0%)\n\n\
Datetime\n  date          Saturday, 8 April, 2023, week 14\n  time          9:5:3 UTC +02:00\n\n\
Storage\n\nNetwork";
    assert_eq!(text, expected);
}

fn network_snapshot() -> Snapshot {
    let mut s = bare_snapshot();
    s.ips = Some(vec![
        Ip { address: String::from("203.0.113.7"), category: IpCategory::Public },
        Ip { address: String::from("10.0.0.2"), category: IpCategory::Local },
    ]);
    s.dns_servers = Some(vec![
        DnsServer { position: 1, address: String::from("1.1.1.1") },
        DnsServer { position: 2, address: String::from("8.8.8.8") },
    ]);
    s.interfaces = Some(vec![Interface { name: String::from("en0"), ip: String::from("10.0.0.2") }]);
    s
}

#[test]
fn network_section_alignment() {
    let s = network_snapshot();
    let rows = collect_network_rows(&s);
    assert_eq!(rows.len(), 5);
    let width = sub_label_width(&rows);
    // the longest sub-label over all five rows is "server 1"
    assert_eq!(width, "server 1".len());
    let lines = network_table(&rows, width);
    assert_eq!(
        lines,
        vec![
            "  ips           public    203.0.113.7",
            "                local     10.0.0.2",
            "  dns servers   server 1  1.1.1.1",
            "                server 2  8.8.8.8",
            "  interfaces    en0       10.0.0.2",
        ]
    );
    for name in ["ips", "dns servers", "interfaces"] {
        assert_eq!(lines.iter().filter(|l| l.trim_start().starts_with(name)).count(), 1);
    }
}

#[test]
fn snapshot_with_every_field() {
    let mut s = network_snapshot();
    s.hostname = Some(String::from("box"));
    s.username = Some(String::from("ada"));
    s.device_name = Some(String::from("Ada's box"));
    s.os = Some(String::from("Linux"));
    s.cpu = Some(Cpu { brand: String::from("Acme X1"), core_count: 8, frequency: 3200 });
    s.time = time(Some(67_200));
    s.disks = Some(vec![DiskInfo {
        name: String::from("disk0"),
        kind: String::from("SSD"),
        total_space: 1024,
        free_space: 1024,
    }]);
    let text = render_snapshot(&s);
    assert!(text.starts_with("System\n  hostname      box\n  username      ada\n  device name   Ada's box\n  os            Linux\n"));
    assert!(text.contains("\n  cpu           Acme X1, 8 cores running at 3200 MHz\n"));
    assert!(text.contains("\n  clock offset  +0.0672 seconds (in sync)\n"));
    assert!(text.contains("\nStorage\n  disk0         SSD, 1.00 KiB free of 1.00 KiB (100.0% free)\n"));
    assert!(text.ends_with("\nNetwork\n  ips           public    203.0.113.7\n                local     10.0.0.2\n  dns servers   server 1  1.1.1.1\n                server 2  8.8.8.8\n  interfaces    en0       10.0.0.2"));
}
