use vstd::prelude::*;

use crate::text::push_char;

verus! {

/// A reading of the local wall clock, field by field as chrono reports it.
/// A nanosecond count of one billion or more marks a leap second.
pub struct LocalTime {
    pub hour: u32,
    pub minute: u32,
    pub second: u32,
    pub nanosecond: u32,
}

impl LocalTime {
    /// The ranges that chrono documents for each field.
    pub open spec fn wf(&self) -> bool {
        &&& self.hour < 24
        &&& self.minute < 60
        &&& self.second < 60
        &&& self.nanosecond < 2_000_000_000
    }

    /// Whether the fields lie in the ranges that chrono documents.
    pub fn is_valid(&self) -> (res: bool)
        ensures
            res == self.wf(),
    {
        self.hour < 24 && self.minute < 60 && self.second < 60 && self.nanosecond < 2_000_000_000
    }

    /// The second that the clock shows: 60 during a leap second.
    pub open spec fn shown_second(&self) -> int {
        self.second + self.nanosecond / 1_000_000_000
    }
}

/// The decimal digit `d` as a character.
pub open spec fn digit_char(d: int) -> char {
    (d + 48) as char
}

/// `n` written with two decimal digits, zero-padded.
pub open spec fn two_digits(n: int) -> Seq<char> {
    seq![digit_char(n / 10), digit_char(n % 10)]
}

/// The clock text `HH:MM:SS` of a reading.
pub open spec fn clock_text(t: LocalTime) -> Seq<char> {
    two_digits(t.hour as int) + seq![':'] + two_digits(t.minute as int) + seq![':'] + two_digits(
        t.shown_second(),
    )
}

/// The clock text of a valid reading has eight characters: the hour's tens
/// and units digits, a colon, the minute's two digits, a colon, and the two
/// digits of the shown second, which counts a leap second as 60.
pub proof fn lemma_clock_text_fields(t: LocalTime)
    requires
        t.wf(),
    ensures
        clock_text(t).len() == 8,
        clock_text(t)[0] == (48 + t.hour / 10) as char,
        clock_text(t)[1] == (48 + t.hour % 10) as char,
        clock_text(t)[2] == ':',
        clock_text(t)[3] == (48 + t.minute / 10) as char,
        clock_text(t)[4] == (48 + t.minute % 10) as char,
        clock_text(t)[5] == ':',
        clock_text(t)[6] == (48 + (t.second + t.nanosecond / 1_000_000_000) / 10) as char,
        clock_text(t)[7] == (48 + (t.second + t.nanosecond / 1_000_000_000) % 10) as char,
{
}

fn digit(d: u32) -> (c: char)
    requires
        d < 10,
    ensures
        c == digit_char(d as int),
{
    let b: u8 = (d as u8) + 48;
    b as char
}

fn push_two_digits(s: &mut String, n: u32)
    requires
        n < 100,
    ensures
        final(s)@ == old(s)@ + two_digits(n as int),
{
    push_char(s, digit(n / 10));
    push_char(s, digit(n % 10));
}

/// Formats a reading as `HH:MM:SS`, as chrono's `%H:%M:%S` does: each field
/// zero-padded to two digits, a leap second shown as 60.
pub fn format_clock(t: &LocalTime) -> (s: String)
    requires
        t.wf(),
    ensures
        s@ == clock_text(*t),
        s@.len() == 8,
        s@[0] == (48 + t.hour / 10) as char,
        s@[1] == (48 + t.hour % 10) as char,
        s@[2] == ':',
        s@[3] == (48 + t.minute / 10) as char,
        s@[4] == (48 + t.minute % 10) as char,
        s@[5] == ':',
        s@[6] == (48 + (t.second + t.nanosecond / 1_000_000_000) / 10) as char,
        s@[7] == (48 + (t.second + t.nanosecond / 1_000_000_000) % 10) as char,
{
    let mut s = String::new();
    push_two_digits(&mut s, t.hour);
    push_char(&mut s, ':');
    push_two_digits(&mut s, t.minute);
    push_char(&mut s, ':');
    let shown: u32 = t.second + t.nanosecond / 1_000_000_000;
    push_two_digits(&mut s, shown);
    proof {
        lemma_clock_text_fields(*t);
    }
    s
}

} // verus!
