//! Decimal numerals: reading a number from characters and writing one out.

use vstd::prelude::*;

verus! {

/// `String::push`: the character is appended at the end of the string.
pub assume_specification[ String::push ](s: &mut String, ch: char)
    ensures
        final(s)@ == old(s)@.push(ch),
;

/// `c` is one of the ten digits.
pub open spec fn is_digit(c: char) -> bool {
    '0' <= c && c <= '9'
}

/// Every character of `s` is a digit.
pub open spec fn all_digits(s: Seq<char>) -> bool {
    forall|i: int| 0 <= i < s.len() ==> is_digit(#[trigger] s[i])
}

/// The number that the digit `c` stands for.
pub open spec fn digit_value(c: char) -> nat {
    (c as nat - '0' as nat) as nat
}

/// The digit that stands for `d`, which is below 10.
pub open spec fn digit_char(d: nat) -> char {
    ('0' as nat + d) as char
}

/// The number that a row of digits stands for; the empty row stands for 0.
pub open spec fn numeral_value(s: Seq<char>) -> nat
    decreases s.len(),
{
    if s.len() == 0 {
        0
    } else {
        numeral_value(s.drop_last()) * 10 + digit_value(s.last())
    }
}

/// `n` written in digits, without leading zeros.
pub open spec fn numeral(n: nat) -> Seq<char>
    decreases n,
{
    if n < 10 {
        seq![digit_char(n)]
    } else {
        numeral(n / 10).push(digit_char(n % 10))
    }
}

/// `n`, which is below 100, written in exactly two digits.
pub open spec fn two_digits(n: nat) -> Seq<char> {
    seq![digit_char(n / 10), digit_char(n % 10)]
}

/// A number written in digits reads as that number.
pub proof fn lemma_numeral_reads_back(n: nat)
    ensures
        numeral(n).len() > 0,
        all_digits(numeral(n)),
        numeral_value(numeral(n)) == n,
    decreases n,
{
    if n < 10 {
        assert(numeral(n).drop_last() =~= Seq::<char>::empty());
        assert(numeral_value(numeral(n).drop_last()) == 0);
    } else {
        lemma_numeral_reads_back(n / 10);
        assert(numeral(n).drop_last() =~= numeral(n / 10));
    }
}

/// A row of digits stands for no less than any row it begins with.
pub proof fn lemma_value_grows(s: Seq<char>, k: int)
    requires
        0 <= k <= s.len(),
    ensures
        numeral_value(s.take(k)) <= numeral_value(s),
    decreases s.len(),
{
    if k == s.len() {
        assert(s.take(k) =~= s);
    } else {
        lemma_value_grows(s.drop_last(), k);
        assert(s.drop_last().take(k) =~= s.take(k));
    }
}

/// The characters of `text`, in order.
pub fn chars_of(text: &str) -> (chars: Vec<char>)
    ensures
        chars@ == text@,
{
    let mut chars: Vec<char> = Vec::new();
    for c in iter: text.chars()
        invariant
            iter.seq() == text@,
            chars@ == text@.take(iter.index() as int),
    {
        chars.push(c);
    }
    chars
}

/// The number that `c` stands for, where it is a digit.
pub fn digit(c: char) -> (d: Option<u64>)
    ensures
        d == (if is_digit(c) {
            Some(digit_value(c) as u64)
        } else {
            None
        }),
{
    if '0' <= c && c <= '9' {
        Some((c as u32 - '0' as u32) as u64)
    } else {
        None
    }
}

/// The number that the digits `chars[start..end]` stand for: `None` where one
/// of them is no digit or the number is above `u64::MAX`.
pub fn read_digits(chars: &Vec<char>, start: usize, end: usize) -> (value: Option<u64>)
    requires
        start <= end <= chars.len(),
    ensures
        value == (if all_digits(chars@.subrange(start as int, end as int)) && numeral_value(
            chars@.subrange(start as int, end as int),
        ) <= u64::MAX {
            Some(numeral_value(chars@.subrange(start as int, end as int)) as u64)
        } else {
            None
        }),
{
    let ghost row = chars@.subrange(start as int, end as int);
    let mut value: u64 = 0;
    let mut i: usize = start;
    while i < end
        invariant
            start <= i <= end <= chars.len(),
            row == chars@.subrange(start as int, end as int),
            all_digits(row.take(i - start)),
            value == numeral_value(row.take(i - start)),
        decreases end - i,
    {
        let ghost before = row.take(i - start);
        let ghost after = row.take(i - start + 1);
        proof {
            assert(after.drop_last() =~= before);
            assert(after.last() == chars[i as int]);
            lemma_value_grows(row, i - start + 1);
        }
        match digit(chars[i]) {
            None => {
                assert(!is_digit(row[i - start]));
                return None;
            },
            Some(d) => {
                if value > (u64::MAX - d) / 10 {
                    return None;
                }
                value = value * 10 + d;
            },
        }
        i += 1;
    }
    assert(row.take(end - start) =~= row);
    Some(value)
}

/// Appends `n` in digits, without leading zeros.
pub fn push_numeral(out: &mut String, n: u64)
    ensures
        final(out)@ == old(out)@ + numeral(n as nat),
    decreases n,
{
    if n >= 10 {
        push_numeral(out, n / 10);
    }
    out.push(((n % 10) as u8 + 48u8) as char);
}

/// Appends `n`, which is below 100, in exactly two digits.
pub fn push_two_digits(out: &mut String, n: u64)
    requires
        n < 100,
    ensures
        final(out)@ == old(out)@ + two_digits(n as nat),
{
    out.push(((n / 10) as u8 + 48u8) as char);
    out.push(((n % 10) as u8 + 48u8) as char);
}

} // verus!
