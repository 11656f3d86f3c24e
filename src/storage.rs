use vstd::prelude::*;
use vstd::string::*;

use crate::metrics::{percent_of, Percent};
use crate::text::{equals_str, starts_with_str};

verus! {

/// A mounted volume as the operating system lists it. A name or path that is
/// not valid text is `None`.
pub struct Volume {
    pub name: Option<String>,
    pub kind: String,
    pub file_system: Option<String>,
    pub mount_point: Option<String>,
    pub total_bytes: u64,
    pub available_bytes: u64,
}

/// One reported volume: sizes in bytes, with the share in use.
pub struct DiskReport {
    pub name: String,
    pub disk_type: String,
    pub total_bytes: u64,
    pub available_bytes: u64,
    pub usage: Percent,
    pub mount_point: String,
    pub file_system: String,
}

/// Which volumes are reported: those of one file system type whose mount
/// point does not begin with one excluded prefix.
pub struct DiskFilter {
    pub accepted_file_system: String,
    pub excluded_mount_prefix: String,
}

/// The characters of an optional string.
pub open spec fn text_of(o: Option<String>) -> Option<Seq<char>> {
    match o {
        Some(s) => Some(s@),
        None => None,
    }
}

/// The characters of an optional string, or "N/A" where it is absent.
pub open spec fn text_or_na(o: Option<String>) -> Seq<char> {
    match o {
        Some(s) => s@,
        None => "N/A"@,
    }
}

pub open spec fn is_prefix_of(p: Seq<char>, s: Seq<char>) -> bool {
    p.len() <= s.len() && s.subrange(0, p.len() as int) == p
}

/// How a volume is reported, field by field.
pub open spec fn reports_volume(r: DiskReport, v: Volume) -> bool {
    &&& r.name@ == text_or_na(v.name)
    &&& r.disk_type@ == v.kind@
    &&& r.total_bytes == v.total_bytes
    &&& r.available_bytes == v.available_bytes
    &&& r.usage.is_ratio_of(v.total_bytes - v.available_bytes, v.total_bytes as int)
    &&& r.mount_point@ == text_or_na(v.mount_point)
    &&& r.file_system@ == text_or_na(v.file_system)
}

impl DiskFilter {
    /// Whether a volume with this file system type and mount point is reported.
    /// A type or mount point that is not valid text is never reported.
    pub open spec fn admits(&self, file_system: Option<Seq<char>>, mount_point: Option<Seq<char>>) -> bool {
        &&& file_system == Some(self.accepted_file_system@)
        &&& match mount_point {
            Some(m) => !is_prefix_of(self.excluded_mount_prefix@, m),
            None => false,
        }
    }

    pub open spec fn admits_volume(&self, v: Volume) -> bool {
        self.admits(text_of(v.file_system), text_of(v.mount_point))
    }

    /// The volumes of `vs` that the filter admits, in their order.
    pub open spec fn eligible(&self, vs: Seq<Volume>) -> Seq<Volume>
        decreases vs.len(),
    {
        if vs.len() == 0 {
            Seq::empty()
        } else {
            let rest = self.eligible(vs.drop_last());
            if self.admits_volume(vs.last()) {
                rest.push(vs.last())
            } else {
                rest
            }
        }
    }

    /// The service's policy: ext4 volumes not mounted under /var.
    pub fn standard() -> (r: DiskFilter)
        ensures
            r.accepted_file_system@ == "ext4"@,
            r.excluded_mount_prefix@ == "/var"@,
    {
        DiskFilter {
            accepted_file_system: String::from_str("ext4"),
            excluded_mount_prefix: String::from_str("/var"),
        }
    }

    /// Whether a volume of this file system type and mount point is reported.
    pub fn includes(&self, file_system: Option<&str>, mount_point: Option<&str>) -> (r: bool)
        ensures
            r == self.admits(
                match file_system {
                    Some(s) => Some(s@),
                    None => None,
                },
                match mount_point {
                    Some(s) => Some(s@),
                    None => None,
                },
            ),
    {
        let fs_ok = match file_system {
            Some(fs) => equals_str(fs, self.accepted_file_system.as_str()),
            None => false,
        };
        let mount_ok = match mount_point {
            Some(m) => !starts_with_str(m, self.excluded_mount_prefix.as_str()),
            None => false,
        };
        fs_ok && mount_ok
    }

    /// Whether the volume is reported.
    pub fn includes_volume(&self, v: &Volume) -> (r: bool)
        ensures
            r == self.admits_volume(*v),
    {
        let fs = match &v.file_system {
            Some(s) => Some(s.as_str()),
            None => None,
        };
        let mount = match &v.mount_point {
            Some(s) => Some(s.as_str()),
            None => None,
        };
        self.includes(fs, mount)
    }
}

fn text_or_na_exec(o: &Option<String>) -> (r: String)
    ensures
        r@ == text_or_na(*o),
{
    match o {
        Some(s) => s.clone(),
        None => String::from_str("N/A"),
    }
}

/// The report of one volume; a volume of zero capacity has zero usage.
pub fn disk_report(v: &Volume) -> (r: DiskReport)
    ensures
        reports_volume(r, *v),
{
    DiskReport {
        name: text_or_na_exec(&v.name),
        disk_type: v.kind.clone(),
        total_bytes: v.total_bytes,
        available_bytes: v.available_bytes,
        usage: percent_of(v.total_bytes as i128 - v.available_bytes as i128, v.total_bytes),
        mount_point: text_or_na_exec(&v.mount_point),
        file_system: text_or_na_exec(&v.file_system),
    }
}

/// The report of every volume that `filter` admits, in the order listed.
pub fn storage_report(filter: &DiskFilter, volumes: &Vec<Volume>) -> (r: Vec<DiskReport>)
    ensures
        r@.len() == filter.eligible(volumes@).len(),
        forall|i: int| 0 <= i < r@.len() ==> reports_volume(#[trigger] r@[i], filter.eligible(volumes@)[i]),
{
    let mut out: Vec<DiskReport> = Vec::new();
    let mut i: usize = 0;
    while i < volumes.len()
        invariant
            i <= volumes@.len(),
            out@.len() == filter.eligible(volumes@.subrange(0, i as int)).len(),
            forall|k: int| 0 <= k < out@.len() ==> reports_volume(#[trigger] out@[k], filter.eligible(volumes@.subrange(0, i as int))[k]),
        decreases volumes@.len() - i,
    {
        let v = &volumes[i];
        assert(volumes@.subrange(0, i + 1).drop_last() =~= volumes@.subrange(0, i as int));
        assert(volumes@.subrange(0, i + 1).last() == volumes@[i as int]);
        if filter.includes_volume(v) {
            out.push(disk_report(v));
        }
        i = i + 1;
    }
    assert(volumes@.subrange(0, volumes@.len() as int) =~= volumes@);
    out
}

/// Disk usage is exactly (total - available) over total times one hundred; it
/// always has a nonzero denominator, is zero when the total is zero, and is
/// negative, as reported, when more is available than the total.
pub proof fn disk_usage_matches_ratio(total_bytes: u64, available_bytes: u64, usage: Percent)
    requires
        usage.is_ratio_of(total_bytes - available_bytes, total_bytes as int),
    ensures
        usage.denominator > 0,
        total_bytes == 0 ==> usage.numerator == 0,
        total_bytes > 0 ==> usage.numerator * total_bytes == (total_bytes - available_bytes) * 100
            * usage.denominator,
        available_bytes > total_bytes > 0 ==> usage.numerator < 0,
        available_bytes <= total_bytes ==> 0 <= usage.numerator <= 100 * usage.denominator,
{
    if total_bytes > 0 {
        let part = total_bytes - available_bytes;
        assert(usage.numerator * total_bytes == part * 100 * usage.denominator) by (nonlinear_arith)
            requires
                usage.numerator == part * 100,
                usage.denominator == total_bytes,
        ;
    }
}

} // verus!
