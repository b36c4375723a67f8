//! Decimal numerals, padded with zeros on the left.

use vstd::prelude::*;

verus! {

/// `String::push` appends one character, as std documents.
pub assume_specification[ String::push ](text: &mut String, c: char)
    ensures
        final(text)@ == old(text)@.push(c),
;

/// The character of a single decimal digit.
pub open spec fn digit_char(d: nat) -> char
    recommends
        d < 10,
{
    if d == 0 {
        '0'
    } else if d == 1 {
        '1'
    } else if d == 2 {
        '2'
    } else if d == 3 {
        '3'
    } else if d == 4 {
        '4'
    } else if d == 5 {
        '5'
    } else if d == 6 {
        '6'
    } else if d == 7 {
        '7'
    } else if d == 8 {
        '8'
    } else {
        '9'
    }
}

/// The digit that a character stands for; 0 for any other character.
pub open spec fn digit_value(c: char) -> nat {
    if c == '1' {
        1
    } else if c == '2' {
        2
    } else if c == '3' {
        3
    } else if c == '4' {
        4
    } else if c == '5' {
        5
    } else if c == '6' {
        6
    } else if c == '7' {
        7
    } else if c == '8' {
        8
    } else if c == '9' {
        9
    } else {
        0
    }
}

/// The decimal numeral of `n`, with zeros in front where it has fewer than
/// `width` digits. It always has at least one digit.
pub open spec fn zero_padded(n: nat, width: nat) -> Seq<char>
    decreases n, width,
{
    if n < 10 && width <= 1 {
        seq![digit_char(n)]
    } else {
        zero_padded(n / 10, if width > 0 { (width - 1) as nat } else { 0 }).push(digit_char(n % 10))
    }
}

/// The number that a string of digits spells.
pub open spec fn decimal_value(digits: Seq<char>) -> nat
    decreases digits.len(),
{
    if digits.len() == 0 {
        0
    } else {
        decimal_value(digits.drop_last()) * 10 + digit_value(digits.last())
    }
}

/// A numeral spells the number it was made from, whatever the padding.
pub proof fn lemma_value_of_zero_padded(n: nat, width: nat)
    ensures
        decimal_value(zero_padded(n, width)) == n,
    decreases n, width,
{
    if n < 10 && width <= 1 {
        let s = seq![digit_char(n)];
        assert(s.drop_last() =~= Seq::<char>::empty());
        assert(decimal_value(s.drop_last()) == 0);
    } else {
        let w: nat = if width > 0 { (width - 1) as nat } else { 0 };
        lemma_value_of_zero_padded(n / 10, w);
        let head = zero_padded(n / 10, w);
        assert(zero_padded(n, width).drop_last() =~= head);
    }
}

/// A numeral has at least one character and at least as many as its width
/// asks, and none of them is a `/` or a `-`.
pub proof fn lemma_len_of_zero_padded(n: nat, width: nat)
    ensures
        zero_padded(n, width).len() >= 1,
        zero_padded(n, width).len() >= width,
        forall|i: int| 0 <= i < zero_padded(n, width).len() ==> #[trigger] zero_padded(n, width)[i] != '/' && zero_padded(n, width)[i] != '-',
    decreases n, width,
{
    if n < 10 && width <= 1 {
    } else {
        let w: nat = if width > 0 { (width - 1) as nat } else { 0 };
        lemma_len_of_zero_padded(n / 10, w);
    }
}

/// Appends the numeral of `n`, padded to `width` digits, to `out`.
pub fn push_zero_padded(out: &mut String, n: u64, width: usize)
    ensures
        final(out)@ == old(out)@ + zero_padded(n as nat, width as nat),
{
    let mut rest: u64 = n;
    let mut wanted: usize = width;
    let mut low_first: Vec<char> = Vec::new();
    while !(rest < 10 && wanted <= 1)
        invariant
            zero_padded(n as nat, width as nat) == zero_padded(rest as nat, wanted as nat)
                + low_first@.reverse(),
        decreases rest, wanted,
    {
        let ghost before = low_first@;
        low_first.push(digit_of(rest % 10));
        proof {
            assert(low_first@.reverse() =~= seq![digit_char((rest % 10) as nat)] + before.reverse());
            assert(zero_padded(rest as nat, wanted as nat) + before.reverse() =~= zero_padded(
                (rest / 10) as nat,
                if wanted > 0 { (wanted - 1) as nat } else { 0 },
            ) + low_first@.reverse());
        }
        rest = rest / 10;
        wanted = if wanted > 0 { wanted - 1 } else { 0 };
    }
    let ghost before = low_first@;
    low_first.push(digit_of(rest));
    proof {
        assert(low_first@.reverse() =~= seq![digit_char(rest as nat)] + before.reverse());
    }
    let mut left: usize = low_first.len();
    while left > 0
        invariant
            left <= low_first.len(),
            out@ == old(out)@ + low_first@.reverse().subrange(0, low_first.len() - left),
        decreases left,
    {
        left = left - 1;
        let ghost so_far = out@;
        out.push(low_first[left]);
        proof {
            let r = low_first@.reverse();
            let k = low_first.len() - left - 1;
            assert(r[k] == low_first@[left as int]);
            assert(r.subrange(0, k + 1) =~= r.subrange(0, k).push(r[k]));
        }
    }
    proof {
        let r = low_first@.reverse();
        assert(r.subrange(0, r.len() as int) =~= r);
    }
}

/// The character of the decimal digit `d`.
fn digit_of(d: u64) -> (c: char)
    requires
        d < 10,
    ensures
        c == digit_char(d as nat),
{
    if d == 0 {
        '0'
    } else if d == 1 {
        '1'
    } else if d == 2 {
        '2'
    } else if d == 3 {
        '3'
    } else if d == 4 {
        '4'
    } else if d == 5 {
        '5'
    } else if d == 6 {
        '6'
    } else if d == 7 {
        '7'
    } else if d == 8 {
        '8'
    } else {
        '9'
    }
}

} // verus!
