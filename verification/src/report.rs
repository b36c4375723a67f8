//! The lines that close a batch.

use crate::decimal::{push_zero_padded, zero_padded};
use crate::outcome::{failure_line, BackupFailure};
use crate::statistics::{BatchReport, BatchStatistics};
use vstd::prelude::*;

verus! {

/// The numeral of a count.
pub open spec fn numeral(n: nat) -> Seq<char> {
    zero_padded(n, 1)
}

/// The lines that give the counts of a batch.
pub open spec fn count_lines(statistics: BatchStatistics) -> Seq<Seq<char>> {
    seq![
        "Backup Statistics:"@,
        "=================="@,
        "Duplicates: "@ + numeral(statistics.duplicates as nat),
        "Copied: "@ + numeral(statistics.copied as nat),
        "To classify these newly copied files, we used:"@,
        "   "@ + numeral(statistics.copied_embedded as nat) + ": EXIF metadata"@,
        "   "@ + numeral(statistics.copied_external_tool as nat) + ": the exiftool program"@,
        "   "@ + numeral(statistics.copied_filesystem as nat) + ": filesystem metadata"@,
        "Failures: "@ + numeral(statistics.failed as nat),
    ]
}

/// The lines that report failures, one each under a heading; none where
/// there is no failure.
pub open spec fn warning_lines(failures: Seq<BackupFailure>) -> Seq<Seq<char>> {
    if failures.len() == 0 {
        Seq::empty()
    } else {
        seq![""@, "WARNING: unable to backup some files:"@] + Seq::new(
            failures.len(),
            |i: int| failure_line(failures[i]@),
        )
    }
}

/// What the lines of a report say.
pub open spec fn texts(lines: Seq<String>) -> Seq<Seq<char>> {
    Seq::new(lines.len(), |i: int| lines[i]@)
}

/// `head`, the numeral of `n`, `tail`.
fn counted(head: &str, n: usize, tail: &str) -> (line: String)
    ensures
        line@ == head@ + numeral(n as nat) + tail@,
{
    let mut line = head.to_owned();
    push_zero_padded(&mut line, n as u64, 1);
    line.append(tail);
    line
}

/// Writes the report of a batch: its counts, then a warning with one line
/// for each failure, where there are failures.
pub fn summary_lines(report: &BatchReport) -> (lines: Vec<String>)
    ensures
        texts(lines@) == count_lines(report.statistics) + warning_lines(report.failures@),
{
    proof {
        reveal_strlit("");
    }
    let statistics = &report.statistics;
    let mut lines: Vec<String> = Vec::new();
    lines.push("Backup Statistics:".to_owned());
    lines.push("==================".to_owned());
    lines.push(counted("Duplicates: ", statistics.duplicates, ""));
    lines.push(counted("Copied: ", statistics.copied, ""));
    lines.push("To classify these newly copied files, we used:".to_owned());
    lines.push(counted("   ", statistics.copied_embedded, ": EXIF metadata"));
    lines.push(counted("   ", statistics.copied_external_tool, ": the exiftool program"));
    lines.push(counted("   ", statistics.copied_filesystem, ": filesystem metadata"));
    lines.push(counted("Failures: ", statistics.failed, ""));
    assert(texts(lines@) =~= count_lines(report.statistics));
    if report.failures.len() > 0 {
        lines.push("".to_owned());
        lines.push("WARNING: unable to backup some files:".to_owned());
        let ghost heading = texts(lines@);
        assert(heading =~= count_lines(report.statistics) + seq![
            ""@,
            "WARNING: unable to backup some files:"@,
        ]);
        let mut i: usize = 0;
        while i < report.failures.len()
            invariant
                i <= report.failures.len(),
                texts(lines@) == heading + Seq::new(
                    i as nat,
                    |k: int| failure_line(report.failures@[k]@),
                ),
            decreases report.failures.len() - i,
        {
            let ghost before = texts(lines@);
            lines.push(report.failures[i].describe());
            i = i + 1;
            assert(texts(lines@) =~= before.push(failure_line(report.failures@[i - 1]@)));
            assert(texts(lines@) =~= heading + Seq::new(
                i as nat,
                |k: int| failure_line(report.failures@[k]@),
            ));
        }
        assert(texts(lines@) =~= count_lines(report.statistics) + warning_lines(
            report.failures@,
        ));
    } else {
        assert(warning_lines(report.failures@) =~= Seq::<Seq<char>>::empty());
    }
    lines
}

} // verus!
