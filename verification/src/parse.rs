//! The text form of a countdown's length: `[[hour:]minute:]second`.

use crate::decimal::{all_digits, chars_of, numeral_value, read_digits};
use crate::hms::{Fields, Hms};
use std::str::FromStr;
use vstd::prelude::*;

verus! {

/// Why a text is no length of time.
#[derive(Debug, Clone, Copy, PartialEq, Eq)]
pub enum ParseError {
    /// A field is not a number. `field` counts the fields from the left,
    /// starting at 0, and names the first such field.
    NonNumeric { field: usize },
    /// There are more than three fields.
    TooManyFields,
    /// The minutes or the seconds are 60 or more.
    OutOfRange { minute: u64, second: u64 },
}

/// The fields of a text: what stands before, between and after its colons.
/// A text without a colon is one field, and a field may be empty.
pub open spec fn fields(s: Seq<char>) -> Seq<Seq<char>>
    decreases s.len(),
{
    if s.len() == 0 {
        seq![Seq::empty()]
    } else {
        let before = fields(s.drop_last());
        if s.last() == ':' {
            before.push(Seq::empty())
        } else {
            before.drop_last().push(before.last().push(s.last()))
        }
    }
}

/// The fields with a colon between each two of them.
pub open spec fn joined(fs: Seq<Seq<char>>) -> Seq<char>
    decreases fs.len(),
{
    if fs.len() == 0 {
        Seq::empty()
    } else if fs.len() == 1 {
        fs[0]
    } else {
        joined(fs.drop_last()) + seq![':'] + fs.last()
    }
}

/// The number that a field stands for: digits, at least one, with or without
/// a `+` before them, that stand for no more than `u64::MAX`.
pub open spec fn number_of(field: Seq<char>) -> Option<u64> {
    let digits = if field.len() > 0 && field[0] == '+' {
        field.skip(1)
    } else {
        field
    };
    if digits.len() > 0 && all_digits(digits) && numeral_value(digits) <= u64::MAX {
        Some(numeral_value(digits) as u64)
    } else {
        None
    }
}

/// How many fields, from the left, are numbers before the first that is
/// none.
pub open spec fn leading_numbers(fs: Seq<Seq<char>>) -> nat
    decreases fs.len(),
{
    if fs.len() == 0 || number_of(fs[0]) is None {
        0
    } else {
        1 + leading_numbers(fs.drop_first())
    }
}

/// The number in the field `back` places before the last, and 0 where there is
/// no such field.
pub open spec fn number_from_end(fs: Seq<Seq<char>>, back: int) -> nat {
    if 0 <= back < fs.len() {
        number_of(fs[fs.len() - 1 - back]).unwrap() as nat
    } else {
        0
    }
}

/// What a text stands for. Its fields are, from the right, the seconds, the
/// minutes and the hours. A field that is no number is found first, then a
/// fourth field, then minutes or seconds out of range.
pub open spec fn parsed(s: Seq<char>) -> Result<Fields, ParseError> {
    let fs = fields(s);
    let second = number_from_end(fs, 0);
    let minute = number_from_end(fs, 1);
    let hour = number_from_end(fs, 2);
    if leading_numbers(fs) < fs.len() {
        Err(ParseError::NonNumeric { field: leading_numbers(fs) as usize })
    } else if fs.len() > 3 {
        Err(ParseError::TooManyFields)
    } else if minute >= 60 || second >= 60 {
        Err(ParseError::OutOfRange { minute: minute as u64, second: second as u64 })
    } else {
        Ok(Fields { hour, minute, second, tenth: 0 })
    }
}

/// The fields of a text hold no colon, and joined by colons they are the
/// text.
pub proof fn lemma_fields_join(s: Seq<char>)
    ensures
        fields(s).len() >= 1,
        forall|i: int, j: int|
            0 <= i < fields(s).len() && 0 <= j < fields(s)[i].len() ==> fields(s)[i][j] != ':',
        joined(fields(s)) == s,
    decreases s.len(),
{
    if s.len() == 0 {
    } else {
        let before = fields(s.drop_last());
        lemma_fields_join(s.drop_last());
        if s.last() == ':' {
            let fs = before.push(Seq::empty());
            assert(fs.drop_last() =~= before);
            assert(joined(fs) =~= s.drop_last() + seq![':']);
            assert(s.drop_last() + seq![':'] =~= s);
        } else {
            let fs = before.drop_last().push(before.last().push(s.last()));
            if before.len() == 1 {
                assert(joined(before) == before[0]);
                assert(joined(fs) =~= s.drop_last().push(s.last()));
            } else {
                assert(fs.drop_last() =~= before.drop_last());
                assert(joined(fs) =~= joined(before.drop_last()) + seq![':'] + before.last().push(
                    s.last(),
                ));
                assert(joined(before) =~= joined(before.drop_last()) + seq![':'] + before.last());
                assert(joined(fs) =~= joined(before).push(s.last()));
            }
            assert(s.drop_last().push(s.last()) =~= s);
        }
    }
}

/// Where the first `k` fields are numbers and the next is none, or there is
/// no next, `k` is the count of the leading numbers.
pub proof fn lemma_leading_numbers(fs: Seq<Seq<char>>, k: int)
    requires
        0 <= k <= fs.len(),
        forall|j: int| 0 <= j < k ==> number_of(#[trigger] fs[j]) is Some,
        k < fs.len() ==> number_of(fs[k]) is None,
    ensures
        leading_numbers(fs) == k,
    decreases k,
{
    if k > 0 {
        let rest = fs.drop_first();
        assert forall|j: int| 0 <= j < k - 1 implies number_of(#[trigger] rest[j]) is Some by {
            assert(rest[j] == fs[j + 1]);
        }
        lemma_leading_numbers(rest, k - 1);
    }
}

/// The number that the field `chars[start..end]` stands for, if it is one.
fn read_number(chars: &Vec<char>, start: usize, end: usize) -> (value: Option<u64>)
    requires
        start <= end <= chars.len(),
    ensures
        value == number_of(chars@.subrange(start as int, end as int)),
{
    let ghost field = chars@.subrange(start as int, end as int);
    if start == end {
        return None;
    }
    let from: usize = if chars[start] == '+' {
        start + 1
    } else {
        start
    };
    proof {
        if from > start {
            assert(field.skip(1) =~= chars@.subrange(from as int, end as int));
        }
    }
    if from == end {
        return None;
    }
    read_digits(chars, from, end)
}

impl Hms {
    /// Reads a length of time written as `[[hour:]minute:]second`, such as
    /// `1:23:45`, `1:00` or `30`. The tenths of what is read are 0.
    pub fn parse(text: &str) -> (result: Result<Hms, ParseError>)
        ensures
            match result {
                Ok(hms) => parsed(text@) == Ok::<Fields, ParseError>(hms@),
                Err(e) => parsed(text@) == Err::<Fields, ParseError>(e),
            },
    {
        let chars = chars_of(text);
        let n: usize = chars.len();
        let mut values: Vec<u64> = Vec::new();
        let ghost mut done: Seq<Seq<char>> = Seq::empty();
        let mut start: usize = 0;
        let mut i: usize = 0;
        proof {
            assert(chars@.take(0) =~= Seq::empty());
            assert(done.push(chars@.subrange(0, 0)) =~= seq![Seq::empty()]);
        }
        while i < n
            invariant
                chars@ == text@,
                n == chars.len(),
                start <= i <= n,
                fields(chars@.take(i as int)) == done.push(
                    chars@.subrange(start as int, i as int),
                ),
                values.len() == done.len(),
                forall|j: int|
                    0 <= j < done.len() ==> number_of(#[trigger] done[j]) == Some(values[j]),
            decreases n - i,
        {
            let ghost upto = chars@.take(i as int + 1);
            let ghost field = chars@.subrange(start as int, i as int);
            proof {
                assert(upto.drop_last() =~= chars@.take(i as int));
                assert(done.push(field).drop_last() =~= done);
            }
            if chars[i] == ':' {
                match read_number(&chars, start, i) {
                    None => {
                        proof {
                            let fs = fields(chars@);
                            lemma_rest_keeps(chars@, i as int + 1, done.push(field));
                            assert forall|j: int| 0 <= j < done.len() implies number_of(
                                #[trigger] fs[j],
                            ) is Some by {
                                assert(fs[j] == done.push(field)[j]);
                                assert(number_of(done[j]) == Some(values[j]));
                            }
                            assert(fs[done.len() as int] == done.push(field)[done.len() as int]);
                            lemma_leading_numbers(fs, done.len() as int);
                        }
                        return Err(ParseError::NonNumeric { field: values.len() });
                    },
                    Some(v) => {
                        values.push(v);
                        proof {
                            done = done.push(field);
                        }
                        start = i + 1;
                        assert(chars@.subrange(start as int, start as int) =~= Seq::empty());
                    },
                }
            } else {
                assert(chars@.subrange(start as int, i as int + 1) =~= field.push(chars@[i as int]));
            }
            i += 1;
        }
        let ghost last = chars@.subrange(start as int, n as int);
        let ghost fs = done.push(last);
        proof {
            assert(chars@.take(n as int) =~= chars@);
            assert(fs == fields(text@));
        }
        match read_number(&chars, start, n) {
            None => {
                proof {
                    lemma_leading_numbers(fs, done.len() as int);
                }
                return Err(ParseError::NonNumeric { field: values.len() });
            },
            Some(v) => {
                values.push(v);
            },
        }
        proof {
            lemma_leading_numbers(fs, fs.len() as int);
        }
        let count: usize = values.len();
        if count > 3 {
            return Err(ParseError::TooManyFields);
        }
        let sec: u64 = values[count - 1];
        let min: u64 = if count >= 2 {
            values[count - 2]
        } else {
            0
        };
        let hour: u64 = if count >= 3 {
            values[count - 3]
        } else {
            0
        };
        if min >= 60 || sec >= 60 {
            Err(ParseError::OutOfRange { minute: min, second: sec })
        } else {
            Ok(Hms::of_whole(hour, min, sec))
        }
    }
}

/// What follows the first `k` characters of a text leaves the fields that
/// these characters have closed as they are.
proof fn lemma_rest_keeps(s: Seq<char>, k: int, closed: Seq<Seq<char>>)
    requires
        0 < k <= s.len(),
        s[k - 1] == ':',
        fields(s.take(k - 1)) == closed,
    ensures
        fields(s).len() > closed.len(),
        forall|j: int| 0 <= j < closed.len() ==> fields(s)[j] == closed[j],
    decreases s.len() - k,
{
    if k == s.len() {
        assert(s.take(k) =~= s);
        assert(s.drop_last() =~= s.take(k - 1));
    } else {
        let shorter = s.drop_last();
        assert(shorter.take(k - 1) =~= s.take(k - 1));
        lemma_rest_keeps(shorter, k, closed);
    }
}

impl FromStr for Hms {
    type Err = ParseError;

    fn from_str(text: &str) -> (result: Result<Hms, ParseError>)
        ensures
            match result {
                Ok(hms) => parsed(text@) == Ok::<Fields, ParseError>(hms@),
                Err(e) => parsed(text@) == Err::<Fields, ParseError>(e),
            },
    {
        Hms::parse(text)
    }
}

} // verus!
