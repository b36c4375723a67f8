//! The directory that a capture day belongs to.

use crate::decimal::{
    decimal_value, lemma_len_of_zero_padded, lemma_value_of_zero_padded, push_zero_padded,
    zero_padded,
};
use crate::paths::{ends_open, is_open_ended, joined};
use crate::timestamp::CaptureTimestamp;
use vstd::prelude::*;

verus! {

/// The numeral of a year: at least four characters, the sign of a negative
/// year among them.
pub open spec fn year_text(year: int) -> Seq<char> {
    if year >= 0 {
        zero_padded(year as nat, 4)
    } else {
        seq!['-'] + zero_padded((-year) as nat, 3)
    }
}

/// The two-digit numeral of a month or a day of the month.
pub open spec fn two_digits(n: nat) -> Seq<char> {
    zero_padded(n, 2)
}

/// The directory of the day of a capture time below `root`:
/// `root/YYYY/MM/DD`.
pub open spec fn directory_of(root: Seq<char>, taken: CaptureTimestamp) -> Seq<char> {
    joined(
        joined(joined(root, year_text(taken.year as int)), two_digits(taken.month as nat)),
        two_digits(taken.day as nat),
    )
}

/// The year that a numeral made by `year_text` spells.
pub open spec fn year_of_text(text: Seq<char>) -> int {
    if text.len() > 0 && text[0] == '-' {
        -(decimal_value(text.drop_first()) as int)
    } else {
        decimal_value(text) as int
    }
}

/// The numeral of a year spells that year.
pub proof fn lemma_year_of_text(year: int)
    ensures
        year_of_text(year_text(year)) == year,
        year_text(year).len() >= 4,
        year_text(year).last() != '/',
{
    if year >= 0 {
        lemma_value_of_zero_padded(year as nat, 4);
        lemma_len_of_zero_padded(year as nat, 4);
        let t = zero_padded(year as nat, 4);
        assert(t[0] != '-');
        assert(t[t.len() - 1] != '/');
    } else {
        let digits = zero_padded((-year) as nat, 3);
        lemma_value_of_zero_padded((-year) as nat, 3);
        lemma_len_of_zero_padded((-year) as nat, 3);
        let t = seq!['-'] + digits;
        assert(t.drop_first() =~= digits);
        assert(t[0] == '-');
        assert(t[t.len() - 1] == digits[digits.len() - 1]);
    }
}

/// A number below 100 has a numeral of exactly two digits, which spells it
/// and does not end in `/`.
pub proof fn lemma_two_digits(n: nat)
    requires
        n < 100,
    ensures
        two_digits(n).len() == 2,
        decimal_value(two_digits(n)) == n,
        two_digits(n).last() != '/',
{
    lemma_value_of_zero_padded(n, 2);
    lemma_len_of_zero_padded(n, 2);
    assert(zero_padded(n / 10, 1).len() == 1);
    let t = two_digits(n);
    assert(t[t.len() - 1] != '/');
}

/// The directory of a day is the root, a `/` unless the root brings one, and
/// `YYYY/MM/DD`.
pub proof fn lemma_directory_spelled_out(root: Seq<char>, taken: CaptureTimestamp)
    requires
        taken.is_calendar_time(),
    ensures
        directory_of(root, taken) == (if is_open_ended(root) {
            root
        } else {
            root.push('/')
        }) + year_text(taken.year as int) + seq!['/'] + two_digits(taken.month as nat) + seq!['/']
            + two_digits(taken.day as nat),
{
    lemma_year_of_text(taken.year as int);
    lemma_two_digits(taken.month as nat);
    let y = year_text(taken.year as int);
    let m = two_digits(taken.month as nat);
    let d = two_digits(taken.day as nat);
    let start = if is_open_ended(root) {
        root
    } else {
        root.push('/')
    };
    let a = joined(root, y);
    assert(a == start + y);
    assert(a.last() == y.last());
    let b = joined(a, m);
    assert(b =~= start + y + seq!['/'] + m);
    assert(b.last() == m.last());
    assert(joined(b, d) =~= start + y + seq!['/'] + m + seq!['/'] + d);
}

/// Below one root, two capture times share a directory exactly when they
/// fall on the same calendar day.
pub proof fn lemma_one_directory_per_day(root: Seq<char>, a: CaptureTimestamp, b: CaptureTimestamp)
    requires
        a.is_calendar_time(),
        b.is_calendar_time(),
    ensures
        directory_of(root, a) == directory_of(root, b) <==> (a.year == b.year && a.month == b.month
            && a.day == b.day),
{
    if directory_of(root, a) == directory_of(root, b) {
        lemma_directory_spelled_out(root, a);
        lemma_directory_spelled_out(root, b);
        lemma_year_of_text(a.year as int);
        lemma_year_of_text(b.year as int);
        lemma_two_digits(a.month as nat);
        lemma_two_digits(b.month as nat);
        lemma_two_digits(a.day as nat);
        lemma_two_digits(b.day as nat);
        let start = if is_open_ended(root) {
            root
        } else {
            root.push('/')
        };
        let ya = year_text(a.year as int);
        let yb = year_text(b.year as int);
        let ma = two_digits(a.month as nat);
        let mb = two_digits(b.month as nat);
        let da = two_digits(a.day as nat);
        let db = two_digits(b.day as nat);
        let pa = start + ya + seq!['/'] + ma + seq!['/'] + da;
        let pb = start + yb + seq!['/'] + mb + seq!['/'] + db;
        assert(pa == pb);
        assert(pa.len() == start.len() + ya.len() + 6);
        assert(pb.len() == start.len() + yb.len() + 6);
        let n = pa.len() as int;
        assert(da =~= pa.subrange(n - 2, n));
        assert(db =~= pb.subrange(n - 2, n));
        assert(ma =~= pa.subrange(n - 5, n - 3));
        assert(mb =~= pb.subrange(n - 5, n - 3));
        assert(ya =~= pa.subrange(start.len() as int, n - 6));
        assert(yb =~= pb.subrange(start.len() as int, n - 6));
    }
}

/// The numeral of `year` goes to the end of `out`.
fn push_year(out: &mut String, year: i32)
    ensures
        final(out)@ == old(out)@ + year_text(year as int),
{
    if year >= 0 {
        push_zero_padded(out, year as u64, 4);
    } else {
        let ghost before = out@;
        out.push('-');
        push_zero_padded(out, (-(year as i64)) as u64, 3);
        assert(out@ =~= before + (seq!['-'] + zero_padded((-(year as int)) as nat, 3)));
    }
}

/// Plans where a picture with this capture time goes: the directory
/// `root/YYYY/MM/DD`, the year with four characters at least, month and day
/// with two digits.
pub fn plan(root: &str, taken: &CaptureTimestamp) -> (directory: String)
    ensures
        directory@ == directory_of(root@, *taken),
{
    let mut directory = root.to_owned();
    if !ends_open(root) {
        directory.push('/');
    }
    push_year(&mut directory, taken.year);
    proof {
        lemma_year_of_text(taken.year as int);
        assert(directory@ =~= joined(root@, year_text(taken.year as int)));
        assert(directory@.last() == year_text(taken.year as int).last());
    }
    let ghost with_year = directory@;
    directory.push('/');
    push_zero_padded(&mut directory, taken.month as u64, 2);
    proof {
        lemma_len_of_zero_padded(taken.month as nat, 2);
        let m = two_digits(taken.month as nat);
        assert(directory@ =~= joined(with_year, m));
        assert(directory@.last() == m[m.len() - 1]);
    }
    let ghost with_month = directory@;
    directory.push('/');
    push_zero_padded(&mut directory, taken.day as u64, 2);
    proof {
        assert(directory@ =~= joined(with_month, two_digits(taken.day as nat)));
    }
    directory
}

} // verus!
