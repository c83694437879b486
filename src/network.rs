//! Network facts: categorized addresses, DNS servers, interfaces and
//! hardware addresses.

use vstd::prelude::*;
use itertools::Itertools;
use crate::text::{dec, digit, digit_char, push_decimal, push_digit, texts};

verus! {

/// The category of an IP address.
#[derive(Clone, Copy, Debug, PartialEq, Eq, Structural)]
pub enum IpCategory {
    Public,
    Local,
    Any,
}

/// The text of a category.
pub open spec fn category_text(c: IpCategory) -> Seq<char> {
    match c {
        IpCategory::Public => seq!['p', 'u', 'b', 'l', 'i', 'c'],
        IpCategory::Local => seq!['l', 'o', 'c', 'a', 'l'],
        IpCategory::Any => seq!['*'],
    }
}

impl IpCategory {
    /// Appends the category's text.
    pub fn push_label(&self, s: &mut String)
        ensures
            final(s)@ == old(s)@ + category_text(*self),
    {
        match self {
            IpCategory::Public => {
                s.push('p');
                s.push('u');
                s.push('b');
                s.push('l');
                s.push('i');
                s.push('c');
            },
            IpCategory::Local => {
                s.push('l');
                s.push('o');
                s.push('c');
                s.push('a');
                s.push('l');
            },
            IpCategory::Any => {
                s.push('*');
            },
        }
        assert(s@ =~= old(s)@ + category_text(*self));
    }

    /// The category's text.
    pub fn label(&self) -> (r: String)
        ensures
            r@ == category_text(*self),
    {
        let mut s = String::new();
        self.push_label(&mut s);
        assert(s@ =~= category_text(*self));
        s
    }
}

/// A categorized IP address, held as its text.
#[derive(Debug)]
pub struct Ip {
    pub address: String,
    pub category: IpCategory,
}

/// A network interface and one of its addresses.
#[derive(Debug)]
pub struct Interface {
    pub name: String,
    pub ip: String,
}

/// An interface with its hardware address.
#[derive(Debug)]
pub struct MacAddress {
    pub name: String,
    pub address: String,
}

/// A DNS server with its 1-based position among the distinct servers.
#[derive(Debug)]
pub struct DnsServer {
    pub position: u64,
    pub address: String,
}

/// Whether the key at `i` occurs earlier in `keys`.
pub open spec fn seen_before(keys: Seq<Seq<char>>, i: int) -> bool {
    exists|j: int| 0 <= j < i && keys[j] == keys[i]
}

/// The positions among the first `n` keys that hold a key's first occurrence,
/// in increasing order.
pub open spec fn first_indices(keys: Seq<Seq<char>>, n: nat) -> Seq<int>
    decreases n,
{
    if n == 0 {
        seq![]
    } else if seen_before(keys, n - 1) {
        first_indices(keys, (n - 1) as nat)
    } else {
        first_indices(keys, (n - 1) as nat).push(n - 1)
    }
}

/// Relies on `Itertools::unique_by`: it yields, in order, each item whose key
/// was not yielded before. The key here is the string itself, so the indices
/// handed back are those of each string's first occurrence.
#[verifier::external_body]
pub(crate) fn first_occurrences(keys: &Vec<String>) -> (r: Vec<usize>)
    ensures
        r@.map_values(|i: usize| i as int) == first_indices(texts(keys@), keys@.len()),
{
    keys.iter().enumerate().unique_by(|p| p.1).map(|p| p.0).collect()
}

/// The first-occurrence positions lie below `n`, and there are at most `n`.
pub proof fn lemma_first_indices_bounds(keys: Seq<Seq<char>>, n: nat)
    ensures
        forall|k: int| 0 <= k < first_indices(keys, n).len() ==> 0 <= #[trigger] first_indices(keys, n)[k] < n,
        first_indices(keys, n).len() <= n,
    decreases n,
{
    if n > 0 {
        lemma_first_indices_bounds(keys, (n - 1) as nat);
    }
}

/// The DNS servers of a list of addresses: duplicates dropped, keeping each
/// address's first occurrence, then numbered from 1.
pub open spec fn numbered_servers(addresses: Seq<Seq<char>>) -> Seq<(nat, Seq<char>)> {
    let firsts = first_indices(addresses, addresses.len());
    Seq::new(firsts.len(), |k: int| ((k + 1) as nat, addresses[firsts[k]]))
}

/// The position and text of each server.
pub open spec fn server_views(v: Seq<DnsServer>) -> Seq<(nat, Seq<char>)> {
    v.map_values(|d: DnsServer| (d.position as nat, d.address@))
}

/// Drops repeated addresses, keeping the first occurrence of each, and numbers
/// the servers that remain from 1 in their order.
pub fn number_dns_servers(addresses: &Vec<String>) -> (r: Vec<DnsServer>)
    ensures
        server_views(r@) == numbered_servers(texts(addresses@)),
{
    let firsts = first_occurrences(addresses);
    proof {
        lemma_first_indices_bounds(texts(addresses@), addresses@.len());
        assert(forall|k: int| 0 <= k < firsts@.len() ==> firsts@[k] as int == first_indices(texts(addresses@), addresses@.len())[k]) by {
            assert forall|k: int| 0 <= k < firsts@.len() implies firsts@[k] as int == first_indices(texts(addresses@), addresses@.len())[k] by {
                assert(firsts@.map_values(|i: usize| i as int)[k] == firsts@[k] as int);
            }
        }
    }
    let ghost firsts_spec = first_indices(texts(addresses@), addresses@.len());
    let mut r: Vec<DnsServer> = Vec::new();
    let mut k: usize = 0;
    while k < firsts.len()
        invariant
            k <= firsts@.len(),
            firsts@.len() == firsts_spec.len(),
            firsts_spec == first_indices(texts(addresses@), addresses@.len()),
            forall|j: int| 0 <= j < firsts@.len() ==> firsts@[j] as int == firsts_spec[j],
            forall|j: int| 0 <= j < firsts_spec.len() ==> 0 <= #[trigger] firsts_spec[j] < addresses@.len(),
            server_views(r@) == numbered_servers(texts(addresses@)).subrange(0, k as int),
        decreases firsts@.len() - k,
    {
        let i = firsts[k];
        assert(0 <= firsts_spec[k as int] < addresses@.len());
        let address = addresses[i].clone();
        assert(texts(addresses@)[i as int] == addresses@[i as int]@);
        let ghost before = r@;
        r.push(DnsServer { position: k as u64 + 1, address });
        assert(server_views(r@) =~= server_views(before).push(((k + 1) as nat, addresses@[i as int]@)));
        k = k + 1;
        assert(server_views(r@) =~= numbered_servers(texts(addresses@)).subrange(0, k as int));
    }
    assert(numbered_servers(texts(addresses@)).subrange(0, k as int) =~= numbered_servers(texts(addresses@)));
    r
}

} // verus!

verus! {

/// One measured round trip to a host.
#[derive(Debug)]
pub struct Ping {
    pub target: String,
    pub round_trip_micros: u64,
}

/// Why a latency measurement gave no result.
#[derive(Clone, Copy, Debug, PartialEq, Eq, Structural)]
pub enum PingError {
    /// The reply came after the allowed time.
    TimedOut,
}

/// Three decimal digits of `n`, with leading zeros.
pub open spec fn three_digits(n: nat) -> Seq<char> {
    seq![digit_char((n / 100) as int), digit_char((n / 10 % 10) as int), digit_char((n % 10) as int)]
}

/// `target<TAB>12.345 ms`.
pub open spec fn ping_line(p: Ping) -> Seq<char> {
    p.target@ + "\t"@ + dec(p.round_trip_micros as nat / 1000) + "."@
        + three_digits(p.round_trip_micros as nat % 1000) + " ms"@
}

impl Ping {
    /// The measurement's line.
    pub fn line(&self) -> (r: String)
        ensures
            r@ == ping_line(*self),
    {
        let mut s = self.target.clone();
        s.append("\t");
        push_decimal(&mut s, self.round_trip_micros / 1000);
        s.append(".");
        let f = self.round_trip_micros % 1000;
        push_digit(&mut s, f / 100);
        push_digit(&mut s, f / 10 % 10);
        push_digit(&mut s, f % 10);
        s.append(" ms");
        assert(s@ =~= ping_line(*self));
        s
    }
}

/// Accepts a round trip that came within the allowed time, in milliseconds.
pub fn ping_once(target: String, round_trip_micros: u64, timeout_millis: u64) -> (r: Result<Ping, PingError>)
    ensures
        round_trip_micros > timeout_millis * 1000 ==> r == Err::<Ping, PingError>(PingError::TimedOut),
        round_trip_micros <= timeout_millis * 1000 ==> r == Ok::<Ping, PingError>(
            Ping { target, round_trip_micros },
        ),
{
    if round_trip_micros as u128 > timeout_millis as u128 * 1000 {
        Err(PingError::TimedOut)
    } else {
        Ok(Ping { target, round_trip_micros })
    }
}

/// The line of a categorized address: `public<TAB>1.2.3.4`.
pub open spec fn ip_line(ip: Ip) -> Seq<char> {
    category_text(ip.category) + "\t"@ + ip.address@
}

/// The line of an interface: `en0<TAB>10.0.0.2`.
pub open spec fn interface_line(i: Interface) -> Seq<char> {
    i.name@ + "\t"@ + i.ip@
}

/// The line of a hardware address: `en0<TAB>0A:1B:...`.
pub open spec fn mac_line(m: MacAddress) -> Seq<char> {
    m.name@ + "\t"@ + m.address@
}

impl Ip {
    /// The address's line.
    pub fn line(&self) -> (r: String)
        ensures
            r@ == ip_line(*self),
    {
        let mut s = self.category.label();
        s.append("\t");
        s.append(self.address.as_str());
        s
    }
}

impl Interface {
    /// The interface's line.
    pub fn line(&self) -> (r: String)
        ensures
            r@ == interface_line(*self),
    {
        let mut s = self.name.clone();
        s.append("\t");
        s.append(self.ip.as_str());
        s
    }
}

impl MacAddress {
    /// The hardware address's line.
    pub fn line(&self) -> (r: String)
        ensures
            r@ == mac_line(*self),
    {
        let mut s = self.name.clone();
        s.append("\t");
        s.append(self.address.as_str());
        s
    }
}

} // verus!

verus! {

/// The hardware address that an interface reports, as six octets.
#[derive(Debug)]
pub struct HardwareAddress {
    pub name: String,
    pub octets: [u8; 6],
}

/// The upper-case hexadecimal digit of `d`.
pub open spec fn hex_char(d: int) -> char {
    if d < 10 { digit_char(d) }
    else if d == 10 { 'A' }
    else if d == 11 { 'B' }
    else if d == 12 { 'C' }
    else if d == 13 { 'D' }
    else if d == 14 { 'E' }
    else { 'F' }
}

/// The two upper-case hexadecimal digits of an octet.
pub open spec fn hex_pair(b: u8) -> Seq<char> {
    seq![hex_char(b as int / 16), hex_char(b as int % 16)]
}

/// The octets as hexadecimal pairs joined by `:`.
pub open spec fn mac_text(o: Seq<u8>) -> Seq<char>
    decreases o.len(),
{
    if o.len() == 0 {
        seq![]
    } else if o.len() == 1 {
        hex_pair(o[0])
    } else {
        mac_text(o.drop_last()) + seq![':'] + hex_pair(o.last())
    }
}

/// Whether every octet is zero: an interface without a hardware address.
pub open spec fn unspecified(o: Seq<u8>) -> bool {
    forall|i: int| 0 <= i < o.len() ==> o[i] == 0
}

/// The hardware addresses that name one, formatted, in their order.
pub open spec fn specified_macs(raw: Seq<HardwareAddress>) -> Seq<(Seq<char>, Seq<char>)>
    decreases raw.len(),
{
    if raw.len() == 0 {
        seq![]
    } else {
        let rest = specified_macs(raw.drop_last());
        let h = raw.last();
        if unspecified(h.octets@) { rest } else { rest.push((h.name@, mac_text(h.octets@))) }
    }
}

/// The name and text of each hardware address.
pub open spec fn mac_views(v: Seq<MacAddress>) -> Seq<(Seq<char>, Seq<char>)> {
    v.map_values(|m: MacAddress| (m.name@, m.address@))
}

fn hex(d: u8) -> (c: char)
    requires
        d < 16,
    ensures
        c == hex_char(d as int),
{
    if d < 10 {
        digit(d as u64)
    } else if d == 10 {
        'A'
    } else if d == 11 {
        'B'
    } else if d == 12 {
        'C'
    } else if d == 13 {
        'D'
    } else if d == 14 {
        'E'
    } else {
        'F'
    }
}

/// Formats six octets as `0A:1B:2C:3D:4E:5F`.
pub fn format_mac(octets: &[u8; 6]) -> (r: String)
    ensures
        r@ == mac_text(octets@),
{
    let mut s = String::new();
    let mut i: usize = 0;
    while i < 6
        invariant
            i <= 6,
            octets@.len() == 6,
            s@ == mac_text(octets@.subrange(0, i as int)),
        decreases 6 - i,
    {
        let b = octets[i];
        if i > 0 {
            s.push(':');
        }
        s.push(hex(b / 16));
        s.push(hex(b % 16));
        let ghost next = octets@.subrange(0, i + 1);
        assert(next.drop_last() =~= octets@.subrange(0, i as int));
        assert(next.last() == b);
        i = i + 1;
        assert(s@ =~= mac_text(next));
    }
    assert(octets@.subrange(0, 6) =~= octets@);
    s
}

/// Lists the interfaces that report a hardware address, with the address
/// formatted; interfaces whose octets are all zero are left out.
pub fn mac_addresses(raw: &Vec<HardwareAddress>) -> (r: Vec<MacAddress>)
    ensures
        mac_views(r@) == specified_macs(raw@),
{
    let mut r: Vec<MacAddress> = Vec::new();
    let mut i: usize = 0;
    while i < raw.len()
        invariant
            i <= raw@.len(),
            mac_views(r@) == specified_macs(raw@.subrange(0, i as int)),
        decreases raw@.len() - i,
    {
        let h = &raw[i];
        let mut zero = true;
        let mut k: usize = 0;
        while k < 6
            invariant
                k <= 6,
                h.octets@.len() == 6,
                zero == (forall|j: int| 0 <= j < k ==> h.octets@[j] == 0),
            decreases 6 - k,
        {
            if h.octets[k] != 0 {
                zero = false;
            }
            k = k + 1;
        }
        let ghost next = raw@.subrange(0, i + 1);
        assert(next.drop_last() =~= raw@.subrange(0, i as int));
        assert(next.last() == raw@[i as int]);
        if !zero {
            let ghost before = r@;
            r.push(MacAddress { name: h.name.clone(), address: format_mac(&h.octets) });
            assert(mac_views(r@) =~= mac_views(before).push((h.name@, mac_text(h.octets@))));
        }
        i = i + 1;
    }
    assert(raw@.subrange(0, raw@.len() as int) =~= raw@);
    r
}

} // verus!
