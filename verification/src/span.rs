//! A length of time in whole seconds and nanoseconds.

use vstd::prelude::*;

verus! {

/// Nanoseconds in one second.
pub const NANOS_PER_SEC: u32 = 1_000_000_000;

/// A non-negative duration. Its view is its length in nanoseconds.
#[derive(Clone, Copy, Debug, PartialEq, Eq)]
pub struct Span {
    secs: u64,
    nanos: u32,
}

impl View for Span {
    type V = nat;

    closed spec fn view(&self) -> nat {
        (self.secs as nat) * 1_000_000_000 + self.nanos as nat
    }
}

impl Span {
    #[verifier::type_invariant]
    closed spec fn wf(self) -> bool {
        self.nanos < 1_000_000_000
    }

    /// The span of `secs` seconds and `nanos` nanoseconds, where `nanos`
    /// is a fraction of a second; `None` where it is not.
    pub fn new(secs: u64, nanos: u32) -> (r: Option<Span>)
        ensures
            r is Some <==> nanos < NANOS_PER_SEC,
            r is Some ==> r.unwrap()@ == secs as nat * 1_000_000_000 + nanos as nat,
    {
        if nanos < NANOS_PER_SEC {
            Some(Span { secs, nanos })
        } else {
            None
        }
    }

    /// The span of `secs` whole seconds.
    pub fn from_secs(secs: u64) -> (r: Span)
        ensures
            r@ == secs as nat * 1_000_000_000,
    {
        Span { secs, nanos: 0 }
    }

    /// The whole seconds of the span.
    pub fn secs(&self) -> (r: u64)
        ensures
            r as nat == self@ / 1_000_000_000,
    {
        proof {
            use_type_invariant(self);
        }
        self.secs
    }

    /// What is left of the span beyond its whole seconds, in nanoseconds.
    pub fn subsec_nanos(&self) -> (r: u32)
        ensures
            r as nat == self@ % 1_000_000_000,
            r < NANOS_PER_SEC,
    {
        proof {
            use_type_invariant(self);
        }
        self.nanos
    }

    /// Whether the span is longer than nothing.
    pub fn is_positive(&self) -> (r: bool)
        ensures
            r == (self@ > 0),
    {
        self.secs > 0 || self.nanos > 0
    }

    /// Whether two spans are equally long.
    pub fn same(&self, other: &Span) -> (r: bool)
        ensures
            r == (self@ == other@),
    {
        proof {
            use_type_invariant(self);
            use_type_invariant(other);
        }
        self.secs == other.secs && self.nanos == other.nanos
    }
}

/// The most that the numbers of a duration's text may weigh together.
pub const NUMBER_WEIGHT_LIMIT: u64 = 500_000_000_000;

/// Whether a character is a decimal digit.
pub open spec fn is_digit(c: char) -> bool {
    48 <= c as u32 && c as u32 <= 57
}

/// The number that a decimal digit stands for.
pub open spec fn digit_value(c: char) -> nat {
    (c as u32 - 48) as nat
}

/// Whether a character ends a number: a letter of a unit, the micro sign,
/// or the decimal point. Blanks do not: digits on both sides of a blank
/// are read as one number.
pub open spec fn ends_number(c: char) -> bool {
    ||| 97 <= c as u32 && c as u32 <= 122
    ||| 65 <= c as u32 && c as u32 <= 90
    ||| c as u32 == 181
    ||| c as u32 == 46
}

/// The numbers among the first `n` characters of a text: the weight of
/// those that have ended, and the weight of the one that has not, which is
/// zero where no digit has come since the last end. A number weighs one
/// more than the value that its digits spell.
pub open spec fn numbers_before(text: Seq<char>, n: int) -> (nat, nat)
    decreases n,
{
    if n <= 0 || n > text.len() {
        (0, 0)
    } else {
        let (ended, running) = numbers_before(text, n - 1);
        let c = text[n - 1];
        if is_digit(c) {
            if running == 0 {
                (ended, digit_value(c) + 1)
            } else {
                (ended, ((running - 1) * 10 + digit_value(c) + 1) as nat)
            }
        } else if ends_number(c) {
            (ended + running, 0)
        } else {
            (ended, running)
        }
    }
}

/// What the numbers among the first `n` characters of a text weigh
/// together.
pub open spec fn weight_before(text: Seq<char>, n: int) -> nat {
    numbers_before(text, n).0 + numbers_before(text, n).1
}

/// What the numbers of a text weigh together.
pub open spec fn number_weight(text: Seq<char>) -> nat {
    weight_before(text, text.len() as int)
}

/// The weight of the numbers only grows along a text.
pub proof fn lemma_weight_grows(text: Seq<char>, i: int, j: int)
    requires
        0 <= i <= j <= text.len(),
    ensures
        weight_before(text, i) <= weight_before(text, j),
    decreases j - i,
{
    if i < j {
        lemma_weight_grows(text, i, j - 1);
        let (ended, running) = numbers_before(text, j - 1);
        if is_digit(text[j - 1]) && running != 0 {
            assert((running - 1) * 10 + 1 >= running);
        }
    }
}

/// What `humantime::parse_duration` makes of a text: the length in
/// nanoseconds of the duration that it reads there, or `None` where it
/// reports an error.
pub uninterp spec fn humantime_duration(text: Seq<char>) -> Option<nat>;

#[verifier::external_type_specification]
#[verifier::external_body]
pub struct ExDurationError(humantime::DurationError);

/// Calls `humantime::parse_duration` and takes the seconds and the
/// nanoseconds below a second out of the `Duration` that it gives.
/// Believed, not proved: what is read depends on the text alone, and
/// `Duration::subsec_nanos` stays below one second. The sum that
/// `parse_duration` keeps can leave the range of a `Duration` only when
/// its seconds stand at 2^64 - 1. Each number that it reads spells its
/// digits between two ends as `ends_number` has them, and adds less than
/// its weight times the 31557600 seconds of a year, the largest unit: with
/// the weights within `NUMBER_WEIGHT_LIMIT` the seconds stay below that.
#[verifier::external_body]
pub(crate) fn read_duration(text: &str) -> (r: Result<Span, humantime::DurationError>)
    requires
        number_weight(text@) <= NUMBER_WEIGHT_LIMIT,
    ensures
        match r {
            Ok(d) => humantime_duration(text@) == Some(d@),
            Err(_) => humantime_duration(text@) is None,
        },
{
    humantime::parse_duration(text).map(|d| Span { secs: d.as_secs(), nanos: d.subsec_nanos() })
}

/// The length of the duration that a text states: what
/// `humantime::parse_duration` reads there, and nothing where the numbers
/// of the text weigh more than `NUMBER_WEIGHT_LIMIT`.
pub open spec fn span_of_text(text: Seq<char>) -> Option<nat> {
    if number_weight(text) > NUMBER_WEIGHT_LIMIT {
        None
    } else {
        humantime_duration(text)
    }
}

/// Whether the numbers of a text weigh no more than the numbers of a
/// duration's text may.
pub fn numbers_fit(text: &str) -> (r: bool)
    ensures
        r == (number_weight(text@) <= NUMBER_WEIGHT_LIMIT),
{
    let len: usize = text.unicode_len();
    let mut ended: u64 = 0;
    let mut running: u64 = 0;
    let mut i: usize = 0;
    while i < len
        invariant
            len == text@.len(),
            i <= len,
            numbers_before(text@, i as int) == (ended as nat, running as nat),
            ended + running <= NUMBER_WEIGHT_LIMIT,
        decreases len - i,
    {
        let c = text.get_char(i);
        if '0' <= c && c <= '9' {
            let digit: u64 = (c as u32 - 48) as u64;
            let next: u64 = if running == 0 {
                digit + 1
            } else {
                (running - 1) * 10 + digit + 1
            };
            if next > NUMBER_WEIGHT_LIMIT - ended {
                proof {
                    lemma_weight_grows(text@, i + 1, len as int);
                }
                return false;
            }
            running = next;
        } else if ('a' <= c && c <= 'z') || ('A' <= c && c <= 'Z') || c == '\u{b5}' || c == '.' {
            ended = ended + running;
            running = 0;
        }
        i = i + 1;
    }
    true
}

/// Reads a duration such as `30s`, `5m` or `1h 30m` from a text; `None`
/// where the text states none or its numbers weigh too much.
pub fn parse_span(text: &str) -> (r: Option<Span>)
    ensures
        match r {
            Some(d) => span_of_text(text@) == Some(d@),
            None => span_of_text(text@) is None,
        },
{
    if numbers_fit(text) {
        match read_duration(text) {
            Ok(d) => Some(d),
            Err(_) => None,
        }
    } else {
        None
    }
}

} // verus!
