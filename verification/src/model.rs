//! Data the pipeline works on: the trigger timestamp, the server
//! context a run is resolved against, and the descriptor of one remote
//! asset.

use vstd::prelude::*;
use crate::text::digit;

verus! {

/// The instant a run was triggered, broken into calendar fields.
/// The surrounding program reads the clock and hands the pipeline
/// these plain values.
#[derive(Clone, Copy, PartialEq, Eq, Structural, Debug)]
pub struct Timestamp {
    pub year: u16,
    pub month: u8,
    pub day: u8,
    pub hour: u8,
    pub minute: u8,
    pub second: u8,
}

/// Two decimal digits, zero padded.
pub open spec fn two_digits(n: int) -> Seq<char> {
    seq![digit(n / 10), digit(n % 10)]
}

/// Four decimal digits, zero padded.
pub open spec fn four_digits(n: int) -> Seq<char> {
    two_digits(n / 100) + two_digits(n % 100)
}

impl Timestamp {
    /// Field ranges of a calendar timestamp.
    pub open spec fn valid(self) -> bool {
        &&& self.year <= 9999
        &&& 1 <= self.month <= 12
        &&& 1 <= self.day <= 31
        &&& self.hour <= 23
        &&& self.minute <= 59
        &&& self.second <= 59
    }

    /// The timestamp written as `YYYY-MM-DDTHH-MM-SS`.
    pub open spec fn formatted(self) -> Seq<char> {
        four_digits(self.year as int) + seq!['-'] + two_digits(self.month as int) + seq!['-']
            + two_digits(self.day as int) + seq!['T'] + two_digits(self.hour as int) + seq!['-']
            + two_digits(self.minute as int) + seq!['-'] + two_digits(self.second as int)
    }

    /// Builds a timestamp, rejecting out-of-range fields.
    pub fn new(year: u16, month: u8, day: u8, hour: u8, minute: u8, second: u8) -> (r: Option<
        Timestamp,
    >)
        ensures
            r is Some <==> (Timestamp { year, month, day, hour, minute, second }).valid(),
            r is Some ==> r->0 == (Timestamp { year, month, day, hour, minute, second }),
    {
        if year <= 9999 && 1 <= month && month <= 12 && 1 <= day && day <= 31 && hour <= 23
            && minute <= 59 && second <= 59 {
            Some(Timestamp { year, month, day, hour, minute, second })
        } else {
            None
        }
    }

    /// Writes the timestamp as `YYYY-MM-DDTHH-MM-SS`, each field zero
    /// padded.
    pub fn format(&self) -> (r: String)
        requires
            self.valid(),
        ensures
            r@ == self.formatted(),
    {
        let mut s = String::new();
        push_two(&mut s, (self.year / 100) as u8);
        push_two(&mut s, (self.year % 100) as u8);
        crate::push_char(&mut s, '-');
        push_two(&mut s, self.month);
        crate::push_char(&mut s, '-');
        push_two(&mut s, self.day);
        crate::push_char(&mut s, 'T');
        push_two(&mut s, self.hour);
        crate::push_char(&mut s, '-');
        push_two(&mut s, self.minute);
        crate::push_char(&mut s, '-');
        push_two(&mut s, self.second);
        proof {
            assert(s@ =~= self.formatted());
        }
        s
    }
}

/// Appends `n` as two zero-padded decimal digits.
fn push_two(s: &mut String, n: u8)
    requires
        n <= 99,
    ensures
        final(s)@ == old(s)@ + two_digits(n as int),
{
    crate::push_char(s, crate::text::digit_char(n / 10));
    crate::push_char(s, crate::text::digit_char(n % 10));
    proof {
        assert(s@ =~= old(s)@ + two_digits(n as int));
    }
}

/// The server a run archives, resolved once from the trigger message.
pub struct ServerContext {
    pub server_id: u64,
    pub server_name: String,
}

/// One remote asset as the listing collaborator reports it: a display
/// name (possibly unsafe for filenames), the URL its bytes live at, and
/// whether the asset is animated.
pub struct AssetDescriptor {
    pub name: String,
    pub url: String,
    pub animated: bool,
}

impl AssetDescriptor {
    /// Builds a descriptor from its parts.
    pub fn new(name: String, url: String, animated: bool) -> (r: AssetDescriptor)
        ensures
            r.name@ == name@,
            r.url@ == url@,
            r.animated == animated,
    {
        AssetDescriptor { name, url, animated }
    }
}

} // verus!
