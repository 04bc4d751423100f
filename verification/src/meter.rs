//! How far a transfer has come: the running total of the bytes read and the
//! percentage that was last reported.

use vstd::prelude::*;
use vstd::string::StringExecFns;
use crate::text::{decimal, push_decimal};

verus! {

/// The accumulator of a transfer's progress.
#[derive(Debug, Clone, Copy, PartialEq, Eq)]
pub struct Progress {
    /// The bytes read so far. It stops at the largest number it can hold.
    pub total: u64,
    /// The whole percentage that was last reported; 0 before the first
    /// report.
    pub reported: u64,
}

/// What is reported when the percentage has advanced far enough.
#[derive(Debug, Clone, Copy, PartialEq, Eq)]
pub struct Report {
    /// The bytes read so far.
    pub total: u64,
    /// The size that the unpacked archive is expected to have.
    pub expected: u64,
    /// `total` as a whole percentage of `expected`.
    pub percent: u64,
}

/// The total after `read` more bytes: the sum, or the largest number that a
/// total can hold where the sum is beyond it.
pub open spec fn total_after(total: u64, read: usize) -> u64 {
    if total + read > u64::MAX {
        u64::MAX
    } else {
        (total + read) as u64
    }
}

/// `total` as a percentage of `expected`, rounded down and held at the
/// largest number that fits 64 bits. Of an expected size of 0 nothing is 0
/// percent and anything else is beyond every percentage.
pub open spec fn whole_percent(total: u64, expected: u64) -> u64 {
    if expected == 0 {
        if total == 0 {
            0
        } else {
            u64::MAX
        }
    } else if 100 * total / (expected as int) > u64::MAX {
        u64::MAX
    } else {
        (100 * total / (expected as int)) as u64
    }
}

/// Whether `total` is more than one percent of `expected` beyond the
/// percentage `reported`. A percentage that fills 64 bits is never passed.
pub open spec fn passes_mark(total: u64, expected: u64, reported: u64) -> bool {
    reported < u64::MAX && 100 * total > (reported + 1) * expected
}

/// The progress after `read` more bytes of an archive that is expected to
/// unpack to `expected` bytes, and the report that is due, if one is.
pub open spec fn advanced(progress: Progress, read: usize, expected: u64) -> (
    Progress,
    Option<Report>,
) {
    let total = total_after(progress.total, read);
    if passes_mark(total, expected, progress.reported) {
        let percent = whole_percent(total, expected);
        (Progress { total, reported: percent }, Some(Report { total, expected, percent }))
    } else {
        (Progress { total, reported: progress.reported }, None)
    }
}

/// The line that a report is logged as.
pub open spec fn report_text(report: Report) -> Seq<char> {
    "read "@ + decimal(report.total as nat) + " / "@ + decimal(report.expected as nat)
        + " bytes, (~"@ + decimal(report.percent as nat) + "%)"@
}

/// Neither the total nor the reported percentage ever goes back, and a
/// report raises the percentage by more than one.
pub proof fn lemma_advance_monotonic(progress: Progress, read: usize, expected: u64)
    ensures
        advanced(progress, read, expected).0.total >= progress.total,
        advanced(progress, read, expected).0.reported >= progress.reported,
        advanced(progress, read, expected).1 is Some ==> advanced(
            progress,
            read,
            expected,
        ).0.reported > progress.reported,
{
    let total = total_after(progress.total, read);
    if passes_mark(total, expected, progress.reported) && expected > 0 {
        lemma_percent_beyond_mark(total, expected, progress.reported);
    }
}

/// A total that passes a mark is at least one whole percent beyond it.
proof fn lemma_percent_beyond_mark(total: u64, expected: u64, reported: u64)
    requires
        expected > 0,
        passes_mark(total, expected, reported),
    ensures
        whole_percent(total, expected) >= reported + 1,
{
    let scaled: int = 100 * total;
    let divisor: int = expected as int;
    let mark: int = reported + 1;
    assert(scaled / divisor >= mark) by (nonlinear_arith)
        requires
            divisor > 0,
            scaled > mark * divisor,
    ;
}

impl Progress {
    /// The progress of a transfer that has read nothing yet.
    pub fn start() -> (progress: Progress)
        ensures
            progress == (Progress { total: 0, reported: 0 }),
    {
        Progress { total: 0, reported: 0 }
    }

    /// Counts `read` more bytes of an archive that is expected to unpack to
    /// `expected` bytes. A report is due when the total has come more than
    /// one percent beyond the percentage that was last reported.
    pub fn advance(&self, read: usize, expected: u64) -> (next: (Progress, Option<Report>))
        ensures
            next == advanced(*self, read, expected),
            next.0.total >= self.total,
            next.0.reported >= self.reported,
    {
        proof {
            lemma_advance_monotonic(*self, read, expected);
        }
        let total = self.total.saturating_add(read as u64);
        if self.reported == u64::MAX {
            return (Progress { total, reported: self.reported }, None);
        }
        let scaled: u128 = 100 * (total as u128);
        let step: u128 = self.reported as u128 + 1;
        assert(step * (expected as u128) <= 0xFFFF_FFFF_FFFF_FFFF * 0xFFFF_FFFF_FFFF_FFFF)
            by (nonlinear_arith)
            requires
                step <= 0xFFFF_FFFF_FFFF_FFFF,
                (expected as u128) <= 0xFFFF_FFFF_FFFF_FFFF,
        ;
        let mark: u128 = step * (expected as u128);
        if scaled > mark {
            let percent: u64 = if expected == 0 {
                u64::MAX
            } else {
                let quotient: u128 = scaled / (expected as u128);
                if quotient > u64::MAX as u128 {
                    u64::MAX
                } else {
                    quotient as u64
                }
            };
            (Progress { total, reported: percent }, Some(Report { total, expected, percent }))
        } else {
            (Progress { total, reported: self.reported }, None)
        }
    }
}

impl Report {
    /// The line that the report is logged as.
    pub fn line(&self) -> (text: String)
        ensures
            text@ == report_text(*self),
    {
        let mut text = String::from_str("read ");
        push_decimal(&mut text, self.total);
        text.append(" / ");
        push_decimal(&mut text, self.expected);
        text.append(" bytes, (~");
        push_decimal(&mut text, self.percent);
        text.append("%)");
        assert(text@ =~= report_text(*self));
        text
    }
}

} // verus!
