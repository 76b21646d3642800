//! Admission control: a ceiling on input size, enforced before any file is read.

use crate::text::{
    chars_of, has_prefix, line_end, line_len, parse_u64, parsed_u64, second_word,
    second_word_bounds,
};
use vstd::prelude::*;

verus! {

/// The label of the line of the memory report that gives the available memory.
pub open spec fn available_label() -> Seq<char> {
    "MemAvailable:"@
}

/// The ceiling that one line of the memory report gives: a quarter of the
/// available memory in bytes, where the line begins with the label, its second
/// word is a number of KiB, and that many bytes can be counted in 64 bits.
pub open spec fn line_limit(line: Seq<char>) -> Option<u64> {
    if !available_label().is_prefix_of(line) {
        None
    } else {
        match second_word(line) {
            Some(word) => match parsed_u64(word) {
                Some(kib) => if kib * 1024 <= u64::MAX {
                    Some((kib * 1024 / 4) as u64)
                } else {
                    None
                },
                None => None,
            },
            None => None,
        }
    }
}

/// The ceiling that a memory report gives: that of its first line that gives
/// one.
pub open spec fn report_limit(report: Seq<char>) -> Option<u64>
    decreases report.len(),
{
    if report.len() == 0 {
        None
    } else {
        let n = line_len(report) as int;
        match line_limit(report.take(n)) {
            Some(limit) => Some(limit),
            None => if n < report.len() {
                report_limit(report.skip(n + 1))
            } else {
                None
            },
        }
    }
}

/// The ceiling in force: that of the memory report, or the fallback where
/// there is no report or it gives none.
pub open spec fn size_limit(meminfo: Option<Seq<char>>) -> u64 {
    match meminfo {
        Some(report) => match report_limit(report) {
            Some(limit) => limit,
            None => FALLBACK_LIMIT,
        },
        None => FALLBACK_LIMIT,
    }
}

/// Ceiling used when the available memory cannot be determined: 5 MiB.
pub const FALLBACK_LIMIT: u64 = 5242880;

/// Why a file was refused before any cryptographic work.
#[derive(Debug, Clone, Copy, PartialEq, Eq, Structural)]
pub enum AdmissionError {
    /// The file is larger than the ceiling in force.
    FileTooLarge { limit: u64, actual: u64 },
}

/// The admission rule: a file passes exactly when it is no larger than the limit.
pub open spec fn admission(file_size: u64, limit: u64) -> Result<(), AdmissionError> {
    if file_size > limit {
        Err(AdmissionError::FileTooLarge { limit, actual: file_size })
    } else {
        Ok(())
    }
}

/// The ceiling that the characters of `v` from `from` up to `to` give as a line
/// of the memory report.
fn limit_of_line(v: &Vec<char>, from: usize, to: usize, label: &Vec<char>) -> (r: Option<u64>)
    requires
        from <= to <= v.len(),
        label@ == available_label(),
    ensures
        r == line_limit(v@.subrange(from as int, to as int)),
{
    if !has_prefix(v, from, to, label) {
        return None;
    }
    match second_word_bounds(v, from, to) {
        Some((a, b)) => match parse_u64(v, a, b) {
            Some(kib) => if kib <= u64::MAX / 1024 {
                Some(kib * 1024 / 4)
            } else {
                None
            },
            None => None,
        },
        None => None,
    }
}

/// The ceiling on input size: a quarter of the available memory that the
/// report `meminfo` gives, or 5 MiB where there is no report or it does not
/// give the figure.
pub fn max_allowed_file_size(meminfo: Option<&str>) -> (limit: u64)
    ensures
        limit == size_limit(
            match meminfo {
                Some(report) => Some(report@),
                None => None,
            },
        ),
{
    let report = match meminfo {
        Some(report) => report,
        None => {
            return FALLBACK_LIMIT;
        },
    };
    let v = chars_of(report);
    let label = chars_of("MemAvailable:");
    let n: usize = v.len();
    let mut pos: usize = 0;
    assert(v@.skip(0) == v@);
    while pos < n
        invariant
            pos <= n,
            n == v.len(),
            meminfo == Some(report),
            v@ == report@,
            label@ == available_label(),
            report_limit(v@) == report_limit(v@.skip(pos as int)),
        decreases n - pos,
    {
        let end: usize = line_end(&v, pos);
        let ghost rest = v@.skip(pos as int);
        assert(rest.take(end - pos) == v@.subrange(pos as int, end as int));
        match limit_of_line(&v, pos, end, &label) {
            Some(limit) => {
                return limit;
            },
            None => {},
        }
        if end == n {
            return FALLBACK_LIMIT;
        }
        assert(rest.skip(end - pos + 1) == v@.skip(end + 1));
        pos = end + 1;
    }
    assert(v@.skip(pos as int).len() == 0);
    FALLBACK_LIMIT
}

/// Admits a file of `file_size` bytes under the ceiling `limit`.
pub fn check(file_size: u64, limit: u64) -> (r: Result<(), AdmissionError>)
    ensures
        r == admission(file_size, limit),
        r is Ok <==> file_size <= limit,
{
    if file_size > limit {
        Err(AdmissionError::FileTooLarge { limit, actual: file_size })
    } else {
        Ok(())
    }
}

/// A file exactly as large as the limit is admitted, and one byte more is
/// refused with both figures reported.
pub proof fn lemma_admission_boundary(limit: u64)
    requires
        limit < u64::MAX,
    ensures
        admission(limit, limit) is Ok,
        admission((limit + 1) as u64, limit) == Err::<(), AdmissionError>(
            AdmissionError::FileTooLarge { limit, actual: (limit + 1) as u64 },
        ),
{
}

} // verus!
