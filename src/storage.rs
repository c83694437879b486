//! Disks and their text.

use vstd::prelude::*;
use crate::format::{
    human_readable_size, percentage, percentage_tenths, percent_tenths, severity, severity_of, size_text,
    tenths_text, Severity,
};
use crate::network::{first_indices, first_occurrences, lemma_first_indices_bounds};
use crate::text::texts;

verus! {

/// A disk: its name, its kind, and its capacity and free space in bytes.
#[derive(Debug)]
pub struct DiskInfo {
    pub name: String,
    pub kind: String,
    pub total_space: u64,
    pub free_space: u64,
}

impl DiskInfo {
    /// A copy of the disk.
    pub fn duplicate(&self) -> (r: DiskInfo)
        ensures
            r == *self,
    {
        DiskInfo {
            name: self.name.clone(),
            kind: self.kind.clone(),
            total_space: self.total_space,
            free_space: self.free_space,
        }
    }

    /// The disk's summary after its name: kind, free space, capacity and the
    /// share that is free.
    pub fn summary(&self) -> (r: String)
        ensures
            r@ == disk_summary(*self),
    {
        let mut s = self.kind.clone();
        s.append(", ");
        s.append(human_readable_size(self.free_space).as_str());
        s.append(" free of ");
        s.append(human_readable_size(self.total_space).as_str());
        s.append(" (");
        s.append(percentage(self.free_space, self.total_space).as_str());
        s.append("% free)");
        s
    }

    /// The disk's line: its name, then its summary.
    pub fn line(&self) -> (r: String)
        ensures
            r@ == disk_line(*self),
    {
        let mut s = self.name.clone();
        s.append(", ");
        s.append(self.summary().as_str());
        s
    }
}

/// `kind, FREE free of TOTAL (P% free)`.
pub open spec fn disk_summary(d: DiskInfo) -> Seq<char> {
    d.kind@ + ", "@ + size_text(d.free_space as nat) + " free of "@ + size_text(d.total_space as nat)
        + " ("@ + tenths_text(percent_tenths(d.free_space as nat, d.total_space as nat)) + "% free)"@
}

/// The bytes in use: the capacity less the free space, 0 where more is free
/// than the capacity.
pub open spec fn used_space(d: DiskInfo) -> nat {
    if d.free_space <= d.total_space { (d.total_space - d.free_space) as nat } else { 0 }
}

/// `name, kind, FREE free of TOTAL (P% free)`.
pub open spec fn disk_line(d: DiskInfo) -> Seq<char> {
    d.name@ + ", "@ + disk_summary(d)
}

/// The names of the disks.
pub open spec fn disk_names(disks: Seq<DiskInfo>) -> Seq<Seq<char>> {
    disks.map_values(|d: DiskInfo| d.name@)
}

/// The disks that remain when each name is kept at its first occurrence only.
pub open spec fn distinct_disks(disks: Seq<DiskInfo>) -> Seq<DiskInfo> {
    let firsts = first_indices(disk_names(disks), disks.len());
    Seq::new(firsts.len(), |k: int| disks[firsts[k]])
}

/// Drops the disks whose name occurred before, keeping the order.
pub fn unique_disks(disks: &Vec<DiskInfo>) -> (r: Vec<DiskInfo>)
    ensures
        r@ == distinct_disks(disks@),
{
    let mut names: Vec<String> = Vec::new();
    let mut i: usize = 0;
    while i < disks.len()
        invariant
            i <= disks@.len(),
            texts(names@) =~= disk_names(disks@).subrange(0, i as int),
        decreases disks@.len() - i,
    {
        let ghost before = names@;
        names.push(disks[i].name.clone());
        assert(texts(names@) =~= texts(before).push(disks@[i as int].name@));
        i = i + 1;
        assert(texts(names@) =~= disk_names(disks@).subrange(0, i as int));
    }
    assert(texts(names@) =~= disk_names(disks@));
    let firsts = first_occurrences(&names);
    let ghost firsts_spec = first_indices(disk_names(disks@), disks@.len());
    proof {
        lemma_first_indices_bounds(disk_names(disks@), disks@.len());
        assert(firsts@.map_values(|i: usize| i as int).len() == firsts@.len());
        assert forall|j: int| 0 <= j < firsts@.len() implies firsts@[j] as int == firsts_spec[j] by {
            assert(firsts@.map_values(|i: usize| i as int)[j] == firsts@[j] as int);
        }
    }
    let mut r: Vec<DiskInfo> = Vec::new();
    let mut k: usize = 0;
    while k < firsts.len()
        invariant
            k <= firsts@.len(),
            firsts@.len() == firsts_spec.len(),
            firsts_spec == first_indices(disk_names(disks@), disks@.len()),
            forall|j: int| 0 <= j < firsts@.len() ==> firsts@[j] as int == firsts_spec[j],
            forall|j: int| 0 <= j < firsts_spec.len() ==> 0 <= #[trigger] firsts_spec[j] < disks@.len(),
            r@ =~= distinct_disks(disks@).subrange(0, k as int),
        decreases firsts@.len() - k,
    {
        let i = firsts[k];
        assert(0 <= firsts_spec[k as int] < disks@.len());
        r.push(disks[i].duplicate());
        k = k + 1;
        assert(r@ =~= distinct_disks(disks@).subrange(0, k as int));
    }
    assert(distinct_disks(disks@).subrange(0, k as int) =~= distinct_disks(disks@));
    r
}

} // verus!

verus! {

impl DiskInfo {
    /// How full the disk is, banded from the used share of its capacity;
    /// free space beyond the capacity counts as nothing used.
    pub fn usage_severity(&self) -> (r: Severity)
        ensures
            r == severity_of(percent_tenths(used_space(*self), self.total_space as nat)),
    {
        let used = if self.free_space <= self.total_space { self.total_space - self.free_space } else { 0 };
        severity(percentage_tenths(used, self.total_space))
    }
}

} // verus!
