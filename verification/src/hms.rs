//! Hours, minutes, seconds and tenths: the form in which a span is shown and
//! typed.

use crate::decimal::{digit_char, numeral, push_numeral, push_two_digits, two_digits};
use crate::span::{duration_nanos, NANOS_PER_SEC};
use std::time::Duration;
use vstd::arithmetic::div_mod::lemma_fundamental_div_mod_converse;
use vstd::prelude::*;

verus! {

/// Nanoseconds in a tenth of a second.
pub const NANOS_PER_TENTH: u32 = 100_000_000;

/// A span cut into hours, minutes, seconds and tenths of a second. The minutes
/// and the seconds stay below 60, the tenths below 10.
#[derive(Debug, Clone, Copy)]
pub struct Hms {
    hour: u64,
    min: u64,
    sec: u64,
    subsec: u32,
}

/// The four fields of an [`Hms`] as numbers.
pub ghost struct Fields {
    pub hour: nat,
    pub minute: nat,
    pub second: nat,
    pub tenth: nat,
}

impl Fields {
    /// The minutes and seconds are below 60 and the tenths below 10.
    pub open spec fn in_range(self) -> bool {
        self.minute < 60 && self.second < 60 && self.tenth < 10
    }

    /// The whole seconds that the fields stand for.
    pub open spec fn seconds(self) -> nat {
        self.hour * 3600 + self.minute * 60 + self.second
    }

    /// The length that the fields stand for, in nanoseconds.
    pub open spec fn nanos(self) -> nat {
        self.seconds() * (NANOS_PER_SEC as nat) + self.tenth * (NANOS_PER_TENTH as nat)
    }

    /// The fields as they are shown: the hours as they are, the minutes and
    /// the seconds in two digits each, the tenths in one.
    pub open spec fn text(self) -> Seq<char> {
        numeral(self.hour) + seq![':'] + two_digits(self.minute) + seq![':'] + two_digits(
            self.second,
        ) + seq!['.', digit_char(self.tenth)]
    }

    /// The fields of a span `n` nanoseconds long. What is shorter than a tenth
    /// of a second is dropped.
    pub open spec fn of_nanos(n: nat) -> Fields {
        let secs = n / (NANOS_PER_SEC as nat);
        Fields {
            hour: secs / 3600,
            minute: (secs % 3600) / 60,
            second: secs % 60,
            tenth: (n % (NANOS_PER_SEC as nat)) / (NANOS_PER_TENTH as nat),
        }
    }
}

impl View for Hms {
    type V = Fields;

    closed spec fn view(&self) -> Fields {
        Fields {
            hour: self.hour as nat,
            minute: self.min as nat,
            second: self.sec as nat,
            tenth: self.subsec as nat,
        }
    }
}

impl Hms {
    #[verifier::type_invariant]
    spec fn fields_in_range(self) -> bool {
        self.min < 60 && self.sec < 60 && self.subsec < 10
    }

    /// The fields of `hour` hours, `min` minutes and `sec` seconds, with no
    /// tenths.
    pub(crate) fn of_whole(hour: u64, min: u64, sec: u64) -> (hms: Hms)
        requires
            min < 60,
            sec < 60,
        ensures
            hms@ == (Fields { hour: hour as nat, minute: min as nat, second: sec as nat, tenth: 0 }),
    {
        Hms { hour, min, sec, subsec: 0 }
    }

    /// The span that the fields stand for, exactly. The whole seconds have to
    /// fit the seconds of a `Duration`.
    pub fn to_duration(&self) -> (d: Duration)
        requires
            self@.seconds() <= u64::MAX,
        ensures
            duration_nanos(d) == self@.nanos(),
    {
        proof {
            use_type_invariant(self);
        }
        let secs: u64 = self.hour * 60 * 60 + self.min * 60 + self.sec;
        let nanos: u32 = self.subsec * NANOS_PER_TENTH;
        Duration::new(secs, nanos)
    }

    /// The span that the fields stand for, or `None` where its whole seconds
    /// do not fit the seconds of a `Duration`.
    pub fn checked_to_duration(&self) -> (d: Option<Duration>)
        ensures
            match d {
                Some(d) => self@.seconds() <= u64::MAX && duration_nanos(d) == self@.nanos(),
                None => self@.seconds() > u64::MAX,
            },
    {
        proof {
            use_type_invariant(self);
        }
        let rest: u64 = self.min * 60 + self.sec;
        if self.hour > u64::MAX / 3600 {
            None
        } else if self.hour * 3600 > u64::MAX - rest {
            None
        } else {
            Some(self.to_duration())
        }
    }

    /// The fields of a span. What is shorter than a tenth of a second is
    /// dropped.
    pub fn from_duration(duration: Duration) -> (hms: Hms)
        ensures
            hms@ == Fields::of_nanos(duration_nanos(duration)),
            hms@.in_range(),
            hms@.seconds() <= u64::MAX,
    {
        let total: u64 = duration.as_secs();
        let hour: u64 = total / 60 / 60;
        let rest: u64 = total - hour * 60 * 60;
        let min: u64 = rest / 60;
        let sec: u64 = rest - min * 60;
        let subsec: u32 = duration.subsec_nanos() / NANOS_PER_TENTH;
        Hms { hour, min, sec, subsec }
    }

    /// Appends the fields as text, such as `1:02:05.4`.
    pub fn write_to(&self, out: &mut String)
        ensures
            final(out)@ == old(out)@ + self@.text(),
    {
        proof {
            use_type_invariant(self);
        }
        push_numeral(out, self.hour);
        out.push(':');
        push_two_digits(out, self.min);
        out.push(':');
        push_two_digits(out, self.sec);
        out.push('.');
        out.push((self.subsec as u8 + 48u8) as char);
        assert(final(out)@ =~= old(out)@ + self@.text());
    }

    /// The fields as text, such as `1:02:05.4`.
    pub fn to_string(&self) -> (s: String)
        ensures
            s@ == self@.text(),
    {
        let mut s = String::new();
        self.write_to(&mut s);
        assert(Seq::<char>::empty() + self@.text() =~= self@.text());
        s
    }

    /// The hours.
    pub fn hour(&self) -> (h: u64)
        ensures
            h == self@.hour,
    {
        self.hour
    }

    /// The minutes, below 60.
    pub fn minute(&self) -> (m: u64)
        ensures
            m == self@.minute,
            m < 60,
    {
        proof {
            use_type_invariant(self);
        }
        self.min
    }

    /// The seconds, below 60.
    pub fn second(&self) -> (s: u64)
        ensures
            s == self@.second,
            s < 60,
    {
        proof {
            use_type_invariant(self);
        }
        self.sec
    }

    /// The tenths of a second, below 10.
    pub fn tenth(&self) -> (t: u32)
        ensures
            t == self@.tenth,
            t < 10,
    {
        proof {
            use_type_invariant(self);
        }
        self.subsec
    }
}

impl From<Duration> for Hms {
    fn from(duration: Duration) -> (hms: Hms)
        ensures
            hms@ == Fields::of_nanos(duration_nanos(duration)),
            hms@.in_range(),
            hms@.seconds() <= u64::MAX,
    {
        Hms::from_duration(duration)
    }
}

impl vstd::std_specs::convert::FromSpecImpl<Duration> for Hms {
    open spec fn obeys_from_spec() -> bool {
        true
    }

    closed spec fn from_spec(duration: Duration) -> Hms {
        let fields = Fields::of_nanos(duration_nanos(duration));
        Hms {
            hour: fields.hour as u64,
            min: fields.minute as u64,
            sec: fields.second as u64,
            subsec: fields.tenth as u32,
        }
    }
}

/// A span of whole tenths of a second, cut into fields and put together
/// again, is the span it was.
pub proof fn lemma_round_trip(d: Duration)
    requires
        duration_nanos(d) % (NANOS_PER_TENTH as nat) == 0,
    ensures
        Fields::of_nanos(duration_nanos(d)).nanos() == duration_nanos(d),
{
    lemma_fields_of_nanos(duration_nanos(d));
}

/// A span of any length, cut into fields, stands for that span less what it
/// held below a tenth of a second, and its fields are in range.
pub proof fn lemma_fields_of_nanos(n: nat)
    ensures
        Fields::of_nanos(n).in_range(),
        Fields::of_nanos(n).nanos() == n - n % (NANOS_PER_TENTH as nat),
{
}

/// Fields in range, put together to a span and cut again, are the fields they
/// were.
pub proof fn lemma_fields_of_their_nanos(f: Fields)
    requires
        f.in_range(),
    ensures
        Fields::of_nanos(f.nanos()) == f,
{
    let low = f.tenth * 100_000_000;
    let secs = f.seconds();
    let within = f.minute * 60 + f.second;
    let upper = f.hour * 60 + f.minute;
    let n = f.nanos();
    assert(n / 1_000_000_000 == secs && n % 1_000_000_000 == low) by {
        lemma_fundamental_div_mod_converse(n as int, 1_000_000_000, secs as int, low as int);
    }
    assert(low / 100_000_000 == f.tenth) by {
        lemma_fundamental_div_mod_converse(low as int, 100_000_000, f.tenth as int, 0);
    }
    assert(secs / 3600 == f.hour && secs % 3600 == within) by {
        lemma_fundamental_div_mod_converse(secs as int, 3600, f.hour as int, within as int);
    }
    assert(within / 60 == f.minute) by {
        lemma_fundamental_div_mod_converse(within as int, 60, f.minute as int, f.second as int);
    }
    assert(secs % 60 == f.second) by {
        lemma_fundamental_div_mod_converse(secs as int, 60, upper as int, f.second as int);
    }
}

} // verus!
