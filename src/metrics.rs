use vstd::prelude::*;

verus! {

/// Bytes in one gigabyte, as the service reports sizes (a binary gigabyte): a
/// size of `b` bytes is `b / BYTES_PER_GB` gigabytes.
pub const BYTES_PER_GB: u64 = 1073741824;

/// A percentage held exactly, as `numerator / denominator` percent.
#[derive(Clone, Copy, Debug, PartialEq, Eq, Structural)]
pub struct Percent {
    pub numerator: i128,
    pub denominator: u64,
}

impl Percent {
    /// The percentage is `part / whole * 100`, or zero when `whole` is zero
    /// (a zero whole has no ratio, and zero is reported in its place).
    pub open spec fn is_ratio_of(self, part: int, whole: int) -> bool {
        if whole <= 0 {
            self.numerator == 0 && self.denominator == 1
        } else {
            self.numerator == part * 100 && self.denominator == whole
        }
    }
}

/// The percentage of `whole` that `part` is; zero when `whole` is zero.
pub fn percent_of(part: i128, whole: u64) -> (r: Percent)
    requires
        -(u64::MAX as int) <= part <= u64::MAX as int,
    ensures
        r.is_ratio_of(part as int, whole as int),
{
    if whole == 0 {
        Percent { numerator: 0, denominator: 1 }
    } else {
        Percent { numerator: part * 100, denominator: whole }
    }
}

/// Memory figures of the host, in bytes, with the share in use.
pub struct MemoryReport {
    pub total_bytes: u64,
    pub used_bytes: u64,
    pub memory_usage: Percent,
}

/// The memory report for `total_bytes` of memory of which `used_bytes` are used.
/// A used count above the total is reported as it comes.
pub fn memory_report(total_bytes: u64, used_bytes: u64) -> (r: MemoryReport)
    ensures
        r.total_bytes == total_bytes,
        r.used_bytes == used_bytes,
        r.memory_usage.is_ratio_of(used_bytes as int, total_bytes as int),
{
    MemoryReport {
        total_bytes,
        used_bytes,
        memory_usage: percent_of(used_bytes as i128, total_bytes),
    }
}

/// Memory usage is exactly used over total times one hundred; it always has a
/// nonzero denominator, is zero when the total is zero, and exceeds one hundred
/// percent when more is used than the total.
pub proof fn memory_usage_matches_ratio(total_bytes: u64, used_bytes: u64, usage: Percent)
    requires
        usage.is_ratio_of(used_bytes as int, total_bytes as int),
    ensures
        usage.denominator > 0,
        total_bytes == 0 ==> usage.numerator == 0,
        total_bytes > 0 ==> usage.numerator * total_bytes == used_bytes * 100 * usage.denominator,
        used_bytes > total_bytes > 0 ==> usage.numerator > 100 * usage.denominator,
        used_bytes <= total_bytes ==> 0 <= usage.numerator <= 100 * usage.denominator,
{
    if total_bytes > 0 {
        assert(usage.numerator * total_bytes == used_bytes * 100 * usage.denominator) by (nonlinear_arith)
            requires
                usage.numerator == used_bytes * 100,
                usage.denominator == total_bytes,
        ;
    }
}

} // verus!
