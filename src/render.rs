//! The text projection of a result: one line per fact, newline-joined lists,
//! and the snapshot's four aligned sections.

use vstd::prelude::*;
use crate::datetime::{clock_line, date_line, datetime_text, offset_line, offset_text, time_text};
use crate::model::{CommandResult, Snapshot};
use crate::network::{category_text, interface_line, ip_line, ping_line, DnsServer, Interface, Ip};
use crate::storage::{disk_line, disk_summary, DiskInfo};
use crate::system::{cpu_line, named_value, ram_line};
use crate::text::{dec, join_lines, joined, padded, push_decimal, push_padded, texts};

verus! {

/// The width of the label column of the snapshot's sections.
pub const LABEL_WIDTH: usize = 14;

/// A labelled row of a section: indented, the label padded to the label
/// column, then the value.
pub open spec fn row_line(label: Seq<char>, value: Seq<char>) -> Seq<char> {
    "  "@ + padded(label, LABEL_WIDTH as nat) + value
}

/// The row of an optional field: none where it is absent.
pub open spec fn opt_line(label: Seq<char>, v: Option<String>) -> Seq<Seq<char>> {
    match v {
        Some(x) => seq![row_line(label, x@)],
        None => seq![],
    }
}

/// The System section.
pub open spec fn system_lines(s: Snapshot) -> Seq<Seq<char>> {
    seq!["System"@] + opt_line("hostname"@, s.hostname) + opt_line("username"@, s.username) + opt_line(
        "device name"@,
        s.device_name,
    ) + opt_line("os"@, s.os) + seq![row_line("architecture"@, s.architecture@)] + (match s.cpu {
        Some(c) => seq![row_line("cpu"@, cpu_line(c))],
        None => seq![],
    }) + seq![row_line("ram"@, ram_line(s.ram))]
}

/// The Datetime section: the clock offset row only where there is an offset.
pub open spec fn datetime_lines(s: Snapshot) -> Seq<Seq<char>> {
    seq!["Datetime"@, row_line("date"@, date_line(s.date)), row_line("time"@, clock_line(s.time))] + (
    match s.time.offset_micros {
        Some(m) => seq![row_line("clock offset"@, offset_line(m as int))],
        None => seq![],
    })
}

/// The Storage section: one row per disk, labelled with its name.
pub open spec fn storage_lines(s: Snapshot) -> Seq<Seq<char>> {
    seq!["Storage"@] + match s.disks {
        Some(v) => v@.map_values(|d: DiskInfo| row_line(d.name@, disk_summary(d))),
        None => seq![],
    }
}

fn push_text(lines: &mut Vec<String>, l: String)
    ensures
        texts(final(lines)@) == texts(old(lines)@).push(l@),
{
    lines.push(l);
    assert(texts(lines@) =~= texts(old(lines)@).push(l@));
}

fn row(label: &str, value: &str) -> (r: String)
    ensures
        r@ == row_line(label@, value@),
{
    let mut s = String::new();
    s.append("  ");
    push_padded(&mut s, label, LABEL_WIDTH);
    s.append(value);
    s
}

fn push_opt_row(lines: &mut Vec<String>, label: &str, v: &Option<String>)
    ensures
        texts(final(lines)@) == texts(old(lines)@) + opt_line(label@, *v),
{
    match v {
        Some(x) => {
            push_text(lines, row(label, x.as_str()));
        },
        None => {},
    }
    assert(texts(lines@) =~= texts(old(lines)@) + opt_line(label@, *v));
}

fn push_system(lines: &mut Vec<String>, s: &Snapshot)
    ensures
        texts(final(lines)@) == texts(old(lines)@) + system_lines(*s),
{
    push_text(lines, String::from_str("System"));
    push_opt_row(lines, "hostname", &s.hostname);
    push_opt_row(lines, "username", &s.username);
    push_opt_row(lines, "device name", &s.device_name);
    push_opt_row(lines, "os", &s.os);
    push_text(lines, row("architecture", s.architecture.as_str()));
    match &s.cpu {
        Some(c) => {
            push_text(lines, row("cpu", c.line().as_str()));
        },
        None => {},
    }
    push_text(lines, row("ram", s.ram.line().as_str()));
    assert(texts(lines@) =~= texts(old(lines)@) + system_lines(*s));
}

fn push_datetime(lines: &mut Vec<String>, s: &Snapshot)
    ensures
        texts(final(lines)@) == texts(old(lines)@) + datetime_lines(*s),
{
    push_text(lines, String::from_str("Datetime"));
    push_text(lines, row("date", s.date.line().as_str()));
    push_text(lines, row("time", s.time.clock_line().as_str()));
    match s.time.offset_micros {
        Some(m) => {
            push_text(lines, row("clock offset", offset_text(m).as_str()));
        },
        None => {},
    }
    assert(texts(lines@) =~= texts(old(lines)@) + datetime_lines(*s));
}

fn push_storage(lines: &mut Vec<String>, s: &Snapshot)
    ensures
        texts(final(lines)@) == texts(old(lines)@) + storage_lines(*s),
{
    push_text(lines, String::from_str("Storage"));
    let ghost start = texts(lines@);
    match &s.disks {
        Some(v) => {
            let ghost rows = v@.map_values(|d: DiskInfo| row_line(d.name@, disk_summary(d)));
            let mut i: usize = 0;
            while i < v.len()
                invariant
                    i <= v@.len(),
                    rows == v@.map_values(|d: DiskInfo| row_line(d.name@, disk_summary(d))),
                    texts(lines@) == start + rows.subrange(0, i as int),
                decreases v@.len() - i,
            {
                let d = &v[i];
                push_text(lines, row(d.name.as_str(), d.summary().as_str()));
                i = i + 1;
                assert(rows.subrange(0, i as int) =~= rows.subrange(0, i - 1).push(rows[i - 1]));
                assert(texts(lines@) =~= start + rows.subrange(0, i as int));
            }
            assert(rows.subrange(0, i as int) =~= rows);
        },
        None => {
            assert(texts(lines@) =~= start + seq![]);
        },
    }
    assert(texts(lines@) =~= texts(old(lines)@) + storage_lines(*s));
}

/// The groups of the Network section, in their order.
#[derive(Clone, Copy, Debug, PartialEq, Eq, Structural)]
pub enum NetGroup {
    Ips,
    DnsServers,
    Interfaces,
}

/// The name of a group.
pub open spec fn group_text(g: NetGroup) -> Seq<char> {
    match g {
        NetGroup::Ips => "ips"@,
        NetGroup::DnsServers => "dns servers"@,
        NetGroup::Interfaces => "interfaces"@,
    }
}

impl NetGroup {
    /// The group's name.
    pub fn label(&self) -> (r: &'static str)
        ensures
            r@ == group_text(*self),
    {
        match self {
            NetGroup::Ips => "ips",
            NetGroup::DnsServers => "dns servers",
            NetGroup::Interfaces => "interfaces",
        }
    }
}

/// A row of the Network section: its group, its sub-label and its value.
#[derive(Debug)]
pub struct NetRow {
    pub group: NetGroup,
    pub sub: String,
    pub value: String,
}

/// The group, sub-label text and value text of each row.
pub open spec fn net_views(v: Seq<NetRow>) -> Seq<(NetGroup, Seq<char>, Seq<char>)> {
    v.map_values(|r: NetRow| (r.group, r.sub@, r.value@))
}

/// The sub-label of the DNS server at a position: `server 2`.
pub open spec fn server_label(position: nat) -> Seq<char> {
    "server "@ + dec(position)
}

/// The rows of the addresses, if they are there.
pub open spec fn ip_rows(o: Option<Vec<Ip>>) -> Seq<(NetGroup, Seq<char>, Seq<char>)> {
    match o {
        Some(v) => v@.map_values(|ip: Ip| (NetGroup::Ips, category_text(ip.category), ip.address@)),
        None => seq![],
    }
}

/// The rows of the DNS servers, if they are there.
pub open spec fn dns_rows(o: Option<Vec<DnsServer>>) -> Seq<(NetGroup, Seq<char>, Seq<char>)> {
    match o {
        Some(v) => v@.map_values(
            |d: DnsServer| (NetGroup::DnsServers, server_label(d.position as nat), d.address@),
        ),
        None => seq![],
    }
}

/// The rows of the interfaces, if they are there.
pub open spec fn interface_rows(o: Option<Vec<Interface>>) -> Seq<(NetGroup, Seq<char>, Seq<char>)> {
    match o {
        Some(v) => v@.map_values(|i: Interface| (NetGroup::Interfaces, i.name@, i.ip@)),
        None => seq![],
    }
}

/// Every row of the Network section, group after group.
pub open spec fn network_rows(s: Snapshot) -> Seq<(NetGroup, Seq<char>, Seq<char>)> {
    ip_rows(s.ips) + dns_rows(s.dns_servers) + interface_rows(s.interfaces)
}

/// The length of the longest sub-label among the rows; 0 without rows.
pub open spec fn widest(rows: Seq<(NetGroup, Seq<char>, Seq<char>)>) -> nat
    decreases rows.len(),
{
    if rows.len() == 0 {
        0
    } else {
        let m = widest(rows.drop_last());
        let l = rows.last().1.len();
        if l > m { l } else { m }
    }
}

/// Whether the row at `i` is the first of a run of its group.
pub open spec fn starts_group(rows: Seq<(NetGroup, Seq<char>, Seq<char>)>, i: int) -> bool {
    i == 0 || rows[i].0 != rows[i - 1].0
}

/// The line of the row at `i`, sub-labels padded to `width`: the group's
/// name only where its run starts, blanks under it after that.
pub open spec fn net_line(rows: Seq<(NetGroup, Seq<char>, Seq<char>)>, i: int, width: nat) -> Seq<char> {
    "  "@ + padded(if starts_group(rows, i) { group_text(rows[i].0) } else { seq![] }, LABEL_WIDTH as nat)
        + padded(rows[i].1, width) + "  "@ + rows[i].2
}

/// The lines of the rows, all sub-labels padded to the widest of them.
pub open spec fn network_lines(rows: Seq<(NetGroup, Seq<char>, Seq<char>)>) -> Seq<Seq<char>> {
    Seq::new(rows.len(), |i: int| net_line(rows, i, widest(rows)))
}

fn push_row(rows: &mut Vec<NetRow>, group: NetGroup, sub: String, value: String)
    ensures
        net_views(final(rows)@) == net_views(old(rows)@).push((group, sub@, value@)),
{
    let ghost entry = (group, sub@, value@);
    rows.push(NetRow { group, sub, value });
    assert(net_views(rows@) =~= net_views(old(rows)@).push(entry));
}

/// Collects the rows of the Network section: the addresses, then the DNS
/// servers, then the interfaces, each in its order.
pub fn collect_network_rows(s: &Snapshot) -> (r: Vec<NetRow>)
    ensures
        net_views(r@) == network_rows(*s),
{
    let mut rows: Vec<NetRow> = Vec::new();
    match &s.ips {
        Some(v) => {
            let mut i: usize = 0;
            while i < v.len()
                invariant
                    i <= v@.len(),
                    s.ips == Some(*v),
                    net_views(rows@) == ip_rows(s.ips).subrange(0, i as int),
                decreases v@.len() - i,
            {
                push_row(&mut rows, NetGroup::Ips, v[i].category.label(), v[i].address.clone());
                i = i + 1;
                assert(net_views(rows@) =~= ip_rows(s.ips).subrange(0, i as int));
            }
            assert(ip_rows(s.ips).subrange(0, i as int) =~= ip_rows(s.ips));
        },
        None => {
            assert(net_views(rows@) =~= ip_rows(s.ips));
        },
    }
    let ghost after_ips = net_views(rows@);
    match &s.dns_servers {
        Some(v) => {
            let mut i: usize = 0;
            while i < v.len()
                invariant
                    i <= v@.len(),
                    s.dns_servers == Some(*v),
                    net_views(rows@) == after_ips + dns_rows(s.dns_servers).subrange(0, i as int),
                decreases v@.len() - i,
            {
                let mut sub = String::from_str("server ");
                push_decimal(&mut sub, v[i].position);
                push_row(&mut rows, NetGroup::DnsServers, sub, v[i].address.clone());
                i = i + 1;
                assert(net_views(rows@) =~= after_ips + dns_rows(s.dns_servers).subrange(0, i as int));
            }
            assert(dns_rows(s.dns_servers).subrange(0, i as int) =~= dns_rows(s.dns_servers));
        },
        None => {
            assert(net_views(rows@) =~= after_ips + dns_rows(s.dns_servers));
        },
    }
    let ghost after_dns = net_views(rows@);
    match &s.interfaces {
        Some(v) => {
            let mut i: usize = 0;
            while i < v.len()
                invariant
                    i <= v@.len(),
                    s.interfaces == Some(*v),
                    net_views(rows@) == after_dns + interface_rows(s.interfaces).subrange(0, i as int),
                decreases v@.len() - i,
            {
                push_row(&mut rows, NetGroup::Interfaces, v[i].name.clone(), v[i].ip.clone());
                i = i + 1;
                assert(net_views(rows@) =~= after_dns + interface_rows(s.interfaces).subrange(0, i as int));
            }
            assert(interface_rows(s.interfaces).subrange(0, i as int) =~= interface_rows(s.interfaces));
        },
        None => {
            assert(net_views(rows@) =~= after_dns + interface_rows(s.interfaces));
        },
    }
    rows
}

/// The length of the longest sub-label among the rows.
pub fn sub_label_width(rows: &Vec<NetRow>) -> (r: usize)
    ensures
        r == widest(net_views(rows@)),
{
    let mut w: usize = 0;
    let mut i: usize = 0;
    while i < rows.len()
        invariant
            i <= rows@.len(),
            w == widest(net_views(rows@).subrange(0, i as int)),
        decreases rows@.len() - i,
    {
        let l = rows[i].sub.as_str().unicode_len();
        let ghost next = net_views(rows@).subrange(0, i + 1);
        assert(next.drop_last() =~= net_views(rows@).subrange(0, i as int));
        assert(next.last().1 == rows@[i as int].sub@);
        if l > w {
            w = l;
        }
        i = i + 1;
    }
    assert(net_views(rows@).subrange(0, rows@.len() as int) =~= net_views(rows@));
    w
}

/// Renders the rows, sub-labels padded to `width`.
pub fn network_table(rows: &Vec<NetRow>, width: usize) -> (r: Vec<String>)
    ensures
        texts(r@) == Seq::new(rows@.len(), |i: int| net_line(net_views(rows@), i, width as nat)),
{
    let ghost views = net_views(rows@);
    let mut lines: Vec<String> = Vec::new();
    let mut i: usize = 0;
    while i < rows.len()
        invariant
            i <= rows@.len(),
            views == net_views(rows@),
            texts(lines@) == Seq::new(i as nat, |j: int| net_line(views, j, width as nat)),
        decreases rows@.len() - i,
    {
        let mut s = String::from_str("  ");
        let starts = i == 0 || rows[i].group != rows[i - 1].group;
        if starts {
            push_padded(&mut s, rows[i].group.label(), LABEL_WIDTH);
        } else {
            push_padded(&mut s, "", LABEL_WIDTH);
        }
        push_padded(&mut s, rows[i].sub.as_str(), width);
        s.append("  ");
        s.append(rows[i].value.as_str());
        proof {
            reveal_strlit("");
            assert(views[i as int] == (rows@[i as int].group, rows@[i as int].sub@, rows@[i as int].value@));
            if i > 0 {
                assert(views[i - 1].0 == rows@[i - 1].group);
            }
            assert(starts == starts_group(views, i as int));
        }
        push_text(&mut lines, s);
        i = i + 1;
        assert(texts(lines@) =~= Seq::new(i as nat, |j: int| net_line(views, j, width as nat)));
    }
    lines
}

/// The snapshot's lines: System, Datetime, Storage and Network, each headed
/// by its name and separated by an empty line.
pub open spec fn snapshot_lines(s: Snapshot) -> Seq<Seq<char>> {
    system_lines(s) + seq![seq![]] + datetime_lines(s) + seq![seq![]] + storage_lines(s) + seq![seq![]]
        + seq!["Network"@] + network_lines(network_rows(s))
}

/// The snapshot's text.
pub open spec fn snapshot_text(s: Snapshot) -> Seq<char> {
    joined(snapshot_lines(s))
}

/// Renders a snapshot as its four sections.
pub fn render_snapshot(s: &Snapshot) -> (r: String)
    ensures
        r@ == snapshot_text(*s),
{
    let mut lines: Vec<String> = Vec::new();
    push_system(&mut lines, s);
    push_text(&mut lines, String::new());
    push_datetime(&mut lines, s);
    push_text(&mut lines, String::new());
    push_storage(&mut lines, s);
    push_text(&mut lines, String::new());
    push_text(&mut lines, String::from_str("Network"));
    let rows = collect_network_rows(s);
    let width = sub_label_width(&rows);
    let table = network_table(&rows, width);
    let ghost before = texts(lines@);
    let mut i: usize = 0;
    while i < table.len()
        invariant
            i <= table@.len(),
            texts(lines@) == before + texts(table@).subrange(0, i as int),
        decreases table@.len() - i,
    {
        push_text(&mut lines, table[i].clone());
        i = i + 1;
        assert(texts(lines@) =~= before + texts(table@).subrange(0, i as int));
    }
    assert(texts(table@).subrange(0, i as int) =~= texts(table@));
    assert(texts(table@) =~= network_lines(network_rows(*s)));
    assert(texts(lines@) =~= snapshot_lines(*s));
    join_lines(&lines)
}

/// The text of a result: one line per item of a list, newline-joined; the
/// fact's own text for a single fact; the four sections for a snapshot.
pub open spec fn result_text(r: CommandResult) -> Seq<char> {
    match r {
        CommandResult::Ips(v) => joined(v@.map_values(|ip: Ip| ip_line(ip))),
        CommandResult::DnsServers(v) => joined(v@.map_values(|d: DnsServer| d.address@)),
        CommandResult::Interfaces(v) => joined(v@.map_values(|i: Interface| interface_line(i))),
        CommandResult::Disks(v) => joined(v@.map_values(|d: DiskInfo| disk_line(d))),
        CommandResult::Date(d) => date_line(d),
        CommandResult::Time(t) => time_text(t),
        CommandResult::Datetime(d) => datetime_text(d),
        CommandResult::Named(n) => named_value(n),
        CommandResult::Cpu(c) => cpu_line(c),
        CommandResult::Ram(r) => ram_line(r),
        CommandResult::Ping(p) => ping_line(p),
        CommandResult::Everything(s) => snapshot_text(s),
    }
}

/// An item of a list result, shown on a line of its own.
pub trait ListLine: Sized {
    /// The item's line.
    spec fn list_line(&self) -> Seq<char>;

    /// Renders the item's line.
    fn render_line(&self) -> (r: String)
        ensures
            r@ == self.list_line(),
    ;
}

impl ListLine for Ip {
    open spec fn list_line(&self) -> Seq<char> {
        ip_line(*self)
    }

    fn render_line(&self) -> (r: String) {
        self.line()
    }
}

impl ListLine for DnsServer {
    open spec fn list_line(&self) -> Seq<char> {
        self.address@
    }

    fn render_line(&self) -> (r: String) {
        self.address.clone()
    }
}

impl ListLine for Interface {
    open spec fn list_line(&self) -> Seq<char> {
        interface_line(*self)
    }

    fn render_line(&self) -> (r: String) {
        self.line()
    }
}

impl ListLine for DiskInfo {
    open spec fn list_line(&self) -> Seq<char> {
        disk_line(*self)
    }

    fn render_line(&self) -> (r: String) {
        self.line()
    }
}

/// The items' lines, joined by newlines.
pub fn list_text<T: ListLine>(v: &Vec<T>) -> (r: String)
    ensures
        r@ == joined(v@.map_values(|x: T| x.list_line())),
{
    let mut lines: Vec<String> = Vec::new();
    let mut i: usize = 0;
    while i < v.len()
        invariant
            i <= v@.len(),
            texts(lines@) == v@.map_values(|x: T| x.list_line()).subrange(0, i as int),
        decreases v@.len() - i,
    {
        push_text(&mut lines, v[i].render_line());
        i = i + 1;
        assert(texts(lines@) =~= v@.map_values(|x: T| x.list_line()).subrange(0, i as int));
    }
    assert(texts(lines@) =~= v@.map_values(|x: T| x.list_line()));
    join_lines(&lines)
}

/// Renders a result as text.
pub fn render_text(r: &CommandResult) -> (t: String)
    ensures
        t@ == result_text(*r),
{
    match r {
        CommandResult::Ips(v) => {
            assert(v@.map_values(|x: Ip| x.list_line()) =~= v@.map_values(|ip: Ip| ip_line(ip)));
            list_text(v)
        },
        CommandResult::DnsServers(v) => {
            assert(v@.map_values(|x: DnsServer| x.list_line()) =~= v@.map_values(|d: DnsServer| d.address@));
            list_text(v)
        },
        CommandResult::Interfaces(v) => {
            assert(v@.map_values(|x: Interface| x.list_line()) =~= v@.map_values(
                |i: Interface| interface_line(i),
            ));
            list_text(v)
        },
        CommandResult::Disks(v) => {
            assert(v@.map_values(|x: DiskInfo| x.list_line()) =~= v@.map_values(|d: DiskInfo| disk_line(d)));
            list_text(v)
        },
        CommandResult::Date(d) => d.line(),
        CommandResult::Time(t) => t.text(),
        CommandResult::Datetime(d) => d.text(),
        CommandResult::Named(n) => String::from_str(n.value()),
        CommandResult::Cpu(c) => c.line(),
        CommandResult::Ram(m) => m.line(),
        CommandResult::Ping(p) => p.line(),
        CommandResult::Everything(s) => render_snapshot(s),
    }
}

/// No sub-label is wider than the widest, and some row is that wide.
proof fn lemma_widest(rows: Seq<(NetGroup, Seq<char>, Seq<char>)>)
    ensures
        forall|i: int| 0 <= i < rows.len() ==> #[trigger] rows[i].1.len() <= widest(rows),
        rows.len() > 0 ==> exists|i: int| 0 <= i < rows.len() && #[trigger] rows[i].1.len() == widest(rows),
    decreases rows.len(),
{
    if rows.len() > 0 {
        let init = rows.drop_last();
        lemma_widest(init);
        assert forall|i: int| 0 <= i < rows.len() implies #[trigger] rows[i].1.len() <= widest(rows) by {
            if i < rows.len() - 1 {
                assert(rows[i] == init[i]);
            }
        }
        if rows.last().1.len() > widest(init) || init.len() == 0 {
            assert(rows[rows.len() - 1].1.len() == widest(rows));
        } else {
            let j = choose|j: int| 0 <= j < init.len() && #[trigger] init[j].1.len() == widest(init);
            assert(rows[j] == init[j]);
        }
    }
}

/// The position of a group in the section's order.
pub open spec fn group_rank(g: NetGroup) -> int {
    match g {
        NetGroup::Ips => 0,
        NetGroup::DnsServers => 1,
        NetGroup::Interfaces => 2,
    }
}

/// The rows come group after group, in the groups' order.
proof fn lemma_rows_ordered(s: Snapshot)
    ensures
        forall|i: int, j: int|
            0 <= i <= j < network_rows(s).len() ==> group_rank(#[trigger] network_rows(s)[i].0) <= group_rank(
                #[trigger] network_rows(s)[j].0,
            ),
{
    let a = ip_rows(s.ips);
    let b = dns_rows(s.dns_servers);
    let c = interface_rows(s.interfaces);
    let rows = network_rows(s);
    assert forall|i: int| 0 <= i < rows.len() implies group_rank(#[trigger] rows[i].0) == (if i < a.len() {
        0int
    } else if i < a.len() + b.len() {
        1int
    } else {
        2int
    }) by {
        if i < a.len() {
            assert(rows[i] == a[i]);
        } else if i < a.len() + b.len() {
            assert(rows[i] == b[i - a.len()]);
        } else {
            assert(rows[i] == c[i - a.len() - b.len()]);
        }
    }
}

/// In the Network section the sub-label column is as wide as the longest
/// sub-label of all rows, whatever their group, and each group's name stands
/// on exactly one line: the first row of that group.
pub proof fn lemma_network_layout(s: Snapshot)
    ensures
        forall|i: int|
            0 <= i < network_rows(s).len() ==> #[trigger] network_rows(s)[i].1.len() <= widest(network_rows(s)),
        network_rows(s).len() > 0 ==> exists|i: int|
            0 <= i < network_rows(s).len() && #[trigger] network_rows(s)[i].1.len() == widest(network_rows(s)),
        forall|i: int|
            0 <= i < network_rows(s).len() ==> (#[trigger] starts_group(network_rows(s), i) <==> forall|j: int|
                0 <= j < i ==> network_rows(s)[j].0 != network_rows(s)[i].0),
{
    let rows = network_rows(s);
    lemma_widest(rows);
    lemma_rows_ordered(s);
    assert forall|i: int| 0 <= i < rows.len() implies (#[trigger] starts_group(rows, i) <==> forall|j: int|
        0 <= j < i ==> rows[j].0 != rows[i].0) by {
        if starts_group(rows, i) && i > 0 {
            assert forall|j: int| 0 <= j < i implies rows[j].0 != rows[i].0 by {
                assert(group_rank(rows[j].0) <= group_rank(rows[i - 1].0));
                assert(group_rank(rows[i - 1].0) <= group_rank(rows[i].0));
                assert(rows[i - 1].0 != rows[i].0);
            }
        }
        if i > 0 && (forall|j: int| 0 <= j < i ==> rows[j].0 != rows[i].0) {
            assert(rows[i - 1].0 != rows[i].0);
        }
    }
}

} // verus!
