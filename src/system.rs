//! Identity facts, CPU and RAM.

use vstd::prelude::*;
use crate::format::{
    human_readable_size, percentage, percentage_tenths, percent_tenths, severity, severity_of, size_text,
    tenths_text, Severity,
};
use crate::text::{dec, push_decimal};

verus! {

/// An identity fact of the machine, tagged with what it is.
#[derive(Debug)]
pub enum Named {
    Hostname(String),
    Username(String),
    DeviceName(String),
    Os(String),
    Architecture(String),
}

/// What an identity fact is.
#[derive(Clone, Copy, Debug, PartialEq, Eq, Structural)]
pub enum NamedKind {
    Hostname,
    Username,
    DeviceName,
    Os,
    Architecture,
}

/// The text that an identity fact carries.
pub open spec fn named_value(n: Named) -> Seq<char> {
    match n {
        Named::Hostname(v) => v@,
        Named::Username(v) => v@,
        Named::DeviceName(v) => v@,
        Named::Os(v) => v@,
        Named::Architecture(v) => v@,
    }
}

/// The tag of an identity fact.
pub open spec fn named_kind(n: Named) -> NamedKind {
    match n {
        Named::Hostname(_) => NamedKind::Hostname,
        Named::Username(_) => NamedKind::Username,
        Named::DeviceName(_) => NamedKind::DeviceName,
        Named::Os(_) => NamedKind::Os,
        Named::Architecture(_) => NamedKind::Architecture,
    }
}

/// The field name under which a kind of identity fact is serialized.
pub open spec fn kind_field(k: NamedKind) -> Seq<char> {
    match k {
        NamedKind::Hostname => "hostname"@,
        NamedKind::Username => "username"@,
        NamedKind::DeviceName => "device_name"@,
        NamedKind::Os => "os"@,
        NamedKind::Architecture => "architecture"@,
    }
}

/// The label under which a kind of identity fact is shown.
pub open spec fn kind_label(k: NamedKind) -> Seq<char> {
    match k {
        NamedKind::Hostname => "hostname"@,
        NamedKind::Username => "username"@,
        NamedKind::DeviceName => "device name"@,
        NamedKind::Os => "os"@,
        NamedKind::Architecture => "architecture"@,
    }
}

impl NamedKind {
    /// The field name under which this kind is serialized.
    pub fn field(&self) -> (r: &'static str)
        ensures
            r@ == kind_field(*self),
    {
        match self {
            NamedKind::Hostname => "hostname",
            NamedKind::Username => "username",
            NamedKind::DeviceName => "device_name",
            NamedKind::Os => "os",
            NamedKind::Architecture => "architecture",
        }
    }

    /// The label under which this kind is shown.
    pub fn label(&self) -> (r: &'static str)
        ensures
            r@ == kind_label(*self),
    {
        match self {
            NamedKind::Hostname => "hostname",
            NamedKind::Username => "username",
            NamedKind::DeviceName => "device name",
            NamedKind::Os => "os",
            NamedKind::Architecture => "architecture",
        }
    }
}

impl Named {
    /// The text that the fact carries.
    pub fn value(&self) -> (r: &str)
        ensures
            r@ == named_value(*self),
    {
        match self {
            Named::Hostname(v) => v.as_str(),
            Named::Username(v) => v.as_str(),
            Named::DeviceName(v) => v.as_str(),
            Named::Os(v) => v.as_str(),
            Named::Architecture(v) => v.as_str(),
        }
    }

    /// The fact's tag.
    pub fn kind(&self) -> (r: NamedKind)
        ensures
            r == named_kind(*self),
    {
        match self {
            Named::Hostname(_) => NamedKind::Hostname,
            Named::Username(_) => NamedKind::Username,
            Named::DeviceName(_) => NamedKind::DeviceName,
            Named::Os(_) => NamedKind::Os,
            Named::Architecture(_) => NamedKind::Architecture,
        }
    }
}

/// Tags a value with a kind.
pub fn create_named(value: String, kind: NamedKind) -> (r: Named)
    ensures
        named_kind(r) == kind,
        named_value(r) == value@,
{
    match kind {
        NamedKind::Hostname => Named::Hostname(value),
        NamedKind::Username => Named::Username(value),
        NamedKind::DeviceName => Named::DeviceName(value),
        NamedKind::Os => Named::Os(value),
        NamedKind::Architecture => Named::Architecture(value),
    }
}

/// A CPU: its brand, its number of cores and its frequency in MHz.
#[derive(Debug)]
pub struct Cpu {
    pub brand: String,
    pub core_count: u64,
    pub frequency: u64,
}

/// `brand, N cores running at F MHz`.
pub open spec fn cpu_line(c: Cpu) -> Seq<char> {
    c.brand@ + ", "@ + dec(c.core_count as nat) + " cores running at "@ + dec(c.frequency as nat) + " MHz"@
}

impl Cpu {
    /// The CPU's line.
    pub fn line(&self) -> (r: String)
        ensures
            r@ == cpu_line(*self),
    {
        let mut s = self.brand.clone();
        s.append(", ");
        push_decimal(&mut s, self.core_count);
        s.append(" cores running at ");
        push_decimal(&mut s, self.frequency);
        s.append(" MHz");
        s
    }
}

/// One CPU as the system lists it: its brand and its frequency in MHz.
#[derive(Debug)]
pub struct CpuCore {
    pub brand: String,
    pub frequency: u64,
}

/// The message when the system lists no CPU.
pub open spec fn no_cpu_text() -> Seq<char> {
    "no CPU information is available"@
}

/// Describes the CPUs that the system lists: the first one's brand and
/// frequency, and their number; an error when there is none.
pub fn cpus(cores: &Vec<CpuCore>) -> (r: Result<Cpu, String>)
    ensures
        cores@.len() == 0 ==> r is Err && r->Err_0@ == no_cpu_text(),
        cores@.len() > 0 ==> r == Ok::<Cpu, String>(
            Cpu { brand: cores@[0].brand, core_count: cores@.len() as u64, frequency: cores@[0].frequency },
        ),
{
    if cores.len() == 0 {
        Err(String::from_str("no CPU information is available"))
    } else {
        Ok(Cpu { brand: cores[0].brand.clone(), core_count: cores.len() as u64, frequency: cores[0].frequency })
    }
}

/// The RAM of the machine, in bytes.
#[derive(Clone, Copy, Debug, PartialEq, Eq, Structural)]
pub struct Ram {
    pub total: u64,
    pub used: u64,
    pub free: u64,
    pub available: u64,
}

/// `TOTAL installed, USED in use (P%)`.
pub open spec fn ram_line(r: Ram) -> Seq<char> {
    size_text(r.total as nat) + " installed, "@ + size_text(r.used as nat) + " in use ("@
        + tenths_text(percent_tenths(r.used as nat, r.total as nat)) + "%)"@
}

impl Ram {
    /// The RAM's line.
    pub fn line(&self) -> (r: String)
        ensures
            r@ == ram_line(*self),
    {
        let mut s = human_readable_size(self.total);
        s.append(" installed, ");
        s.append(human_readable_size(self.used).as_str());
        s.append(" in use (");
        s.append(percentage(self.used, self.total).as_str());
        s.append("%)");
        s
    }

    /// How full the RAM is, banded from the used share.
    pub fn usage_severity(&self) -> (r: Severity)
        ensures
            r == severity_of(percent_tenths(self.used as nat, self.total as nat)),
    {
        severity(percentage_tenths(self.used, self.total))
    }
}

} // verus!
