//! Frequencies, held in whole hertz.

use crate::text::{parse_decimal, parse_u64};
use vstd::prelude::*;
use vstd::string::*;

verus! {

/// A frequency string that could not be read; it holds the string.
#[derive(Debug)]
pub enum Error {
    ParseHertz(String),
}

pub enum ErrorView {
    ParseHertz(Seq<char>),
}

impl DeepView for Error {
    type V = ErrorView;

    open spec fn deep_view(&self) -> ErrorView {
        match self {
            Error::ParseHertz(s) => ErrorView::ParseHertz(s@),
        }
    }
}

impl Error {
    /// The error in words, for a person to read.
    pub fn message(&self) -> (r: String)
        ensures
            r@ == "Error parsing frequency string: "@ + self.deep_view()->ParseHertz_0,
    {
        match self {
            Error::ParseHertz(s) => String::from_str("Error parsing frequency string: ").concat(
                s.as_str(),
            ),
        }
    }
}

/// The units that a frequency is given in.
#[derive(Clone, Copy, Debug, PartialEq, Eq, Structural)]
pub enum HertzUnit {
    Hz,
    Khz,
    Mhz,
    Ghz,
    Thz,
}

/// How many hertz one of the unit is.
pub open spec fn unit_multiple(unit: HertzUnit) -> nat {
    match unit {
        HertzUnit::Hz => 1,
        HertzUnit::Khz => 1_000,
        HertzUnit::Mhz => 1_000_000,
        HertzUnit::Ghz => 1_000_000_000,
        HertzUnit::Thz => 1_000_000_000_000,
    }
}

impl HertzUnit {
    pub fn multiple(&self) -> (r: u64)
        ensures
            r == unit_multiple(*self),
    {
        match self {
            HertzUnit::Hz => 1,
            HertzUnit::Khz => 1_000,
            HertzUnit::Mhz => 1_000_000,
            HertzUnit::Ghz => 1_000_000_000,
            HertzUnit::Thz => 1_000_000_000_000,
        }
    }
}

/// A frequency in whole hertz.
#[derive(Clone, Copy, Debug, PartialEq, Eq, Structural)]
pub struct Hertz(pub u64);

impl DeepView for Hertz {
    type V = Hertz;

    open spec fn deep_view(&self) -> Hertz {
        *self
    }
}

/// `count` of the unit in hertz, or the largest frequency that can be held
/// where that is smaller.
pub open spec fn scaled(count: u64, unit: HertzUnit) -> Hertz {
    if count * unit_multiple(unit) <= u64::MAX {
        Hertz((count * unit_multiple(unit)) as u64)
    } else {
        Hertz(u64::MAX)
    }
}

/// How many whole units fit into the frequency.
pub open spec fn whole(hz: Hertz, unit: HertzUnit) -> u64 {
    (hz.0 as nat / unit_multiple(unit)) as u64
}

impl Hertz {
    pub fn new(hz: u64) -> (r: Self)
        ensures
            r == Hertz(hz),
    {
        Hertz(hz)
    }

    fn of(count: u64, unit: HertzUnit) -> (r: Self)
        ensures
            r == scaled(count, unit),
    {
        match count.checked_mul(unit.multiple()) {
            Some(hz) => Hertz(hz),
            None => Hertz(u64::MAX),
        }
    }

    /// A whole number of kilohertz; what does not fit becomes the largest
    /// frequency.
    pub fn from_khz(khz: u64) -> (r: Self)
        ensures
            r == scaled(khz, HertzUnit::Khz),
    {
        Hertz::of(khz, HertzUnit::Khz)
    }

    /// A whole number of megahertz; what does not fit becomes the largest
    /// frequency.
    pub fn from_mhz(mhz: u64) -> (r: Self)
        ensures
            r == scaled(mhz, HertzUnit::Mhz),
    {
        Hertz::of(mhz, HertzUnit::Mhz)
    }

    /// A whole number of gigahertz; what does not fit becomes the largest
    /// frequency.
    pub fn from_ghz(ghz: u64) -> (r: Self)
        ensures
            r == scaled(ghz, HertzUnit::Ghz),
    {
        Hertz::of(ghz, HertzUnit::Ghz)
    }

    /// A whole number of terahertz; what does not fit becomes the largest
    /// frequency.
    pub fn from_thz(thz: u64) -> (r: Self)
        ensures
            r == scaled(thz, HertzUnit::Thz),
    {
        Hertz::of(thz, HertzUnit::Thz)
    }

    /// Below one kilohertz.
    pub fn is_hz(&self) -> (r: bool)
        ensures
            r == (self.0 < unit_multiple(HertzUnit::Khz)),
    {
        self.0 < HertzUnit::Khz.multiple()
    }

    /// Below one megahertz.
    pub fn is_khz(&self) -> (r: bool)
        ensures
            r == (self.0 < unit_multiple(HertzUnit::Mhz)),
    {
        self.0 < HertzUnit::Mhz.multiple()
    }

    /// Below one gigahertz.
    pub fn is_mhz(&self) -> (r: bool)
        ensures
            r == (self.0 < unit_multiple(HertzUnit::Ghz)),
    {
        self.0 < HertzUnit::Ghz.multiple()
    }

    /// Below one terahertz.
    pub fn is_ghz(&self) -> (r: bool)
        ensures
            r == (self.0 < unit_multiple(HertzUnit::Thz)),
    {
        self.0 < HertzUnit::Thz.multiple()
    }

    /// At least one kilohertz.
    pub fn is_thz(&self) -> (r: bool)
        ensures
            r == (self.0 >= unit_multiple(HertzUnit::Khz)),
    {
        self.0 >= HertzUnit::Khz.multiple()
    }

    pub fn hz(&self) -> (r: u64)
        ensures
            r == self.0,
    {
        self.0
    }

    /// The whole kilohertz in the frequency.
    pub fn khz(&self) -> (r: u64)
        ensures
            r == whole(*self, HertzUnit::Khz),
    {
        self.0 / HertzUnit::Khz.multiple()
    }

    /// The whole megahertz in the frequency.
    pub fn mhz(&self) -> (r: u64)
        ensures
            r == whole(*self, HertzUnit::Mhz),
    {
        self.0 / HertzUnit::Mhz.multiple()
    }

    /// The whole gigahertz in the frequency.
    pub fn ghz(&self) -> (r: u64)
        ensures
            r == whole(*self, HertzUnit::Ghz),
    {
        self.0 / HertzUnit::Ghz.multiple()
    }

    /// The whole terahertz in the frequency.
    pub fn thz(&self) -> (r: u64)
        ensures
            r == whole(*self, HertzUnit::Thz),
    {
        self.0 / HertzUnit::Thz.multiple()
    }
}

impl From<u64> for Hertz {
    fn from(hz: u64) -> (r: Hertz) {
        Hertz::new(hz)
    }
}

impl vstd::std_specs::convert::FromSpecImpl<u64> for Hertz {
    open spec fn obeys_from_spec() -> bool {
        true
    }

    open spec fn from_spec(hz: u64) -> Hertz {
        Hertz(hz)
    }
}

/// A frequency that was made from whole units holds that many of them.
pub proof fn law_whole_units_are_kept(count: u64, unit: HertzUnit)
    requires
        count * unit_multiple(unit) <= u64::MAX,
    ensures
        whole(scaled(count, unit), unit) == count,
{
    let m = unit_multiple(unit) as int;
    let c = count as int;
    assert((c * m) / m == c) by (nonlinear_arith)
        requires
            m > 0,
            c >= 0,
    ;
}

/// The unit that a frequency is written in: `khz`, `mhz`, `ghz` or `thz` at
/// its end, in small or capital letters; hertz where it ends in none of
/// them.
pub open spec fn unit_of(s: Seq<char>) -> HertzUnit {
    let n = s.len() as int;
    if n >= 3 && (s[n - 2] == 'h' || s[n - 2] == 'H') && (s[n - 1] == 'z' || s[n - 1] == 'Z') {
        let c = s[n - 3];
        if c == 'k' || c == 'K' {
            HertzUnit::Khz
        } else if c == 'm' || c == 'M' {
            HertzUnit::Mhz
        } else if c == 'g' || c == 'G' {
            HertzUnit::Ghz
        } else if c == 't' || c == 'T' {
            HertzUnit::Thz
        } else {
            HertzUnit::Hz
        }
    } else {
        HertzUnit::Hz
    }
}

/// What stands before the unit; the whole where there is no unit.
pub open spec fn number_of(s: Seq<char>) -> Seq<char> {
    if unit_of(s) == HertzUnit::Hz {
        s
    } else {
        s.take(s.len() - 3)
    }
}

/// Parts a frequency as it is written into the number and the unit.
pub fn split_unit(s: &str) -> (r: (String, HertzUnit))
    ensures
        r.0@ == number_of(s@),
        r.1 == unit_of(s@),
{
    let n = s.unicode_len();
    if n < 3 {
        return (String::from_str(s), HertzUnit::Hz);
    }
    let h = s.get_char(n - 2);
    let z = s.get_char(n - 1);
    if !((h == 'h' || h == 'H') && (z == 'z' || z == 'Z')) {
        return (String::from_str(s), HertzUnit::Hz);
    }
    let unit = match s.get_char(n - 3) {
        'k' | 'K' => HertzUnit::Khz,
        'm' | 'M' => HertzUnit::Mhz,
        'g' | 'G' => HertzUnit::Ghz,
        't' | 'T' => HertzUnit::Thz,
        _ => {
            return (String::from_str(s), HertzUnit::Hz);
        },
    };
    let number = s.substring_char(0, n - 3);
    assert(number@ =~= s@.take(s@.len() - 3));
    (String::from_str(number), unit)
}

/// Reads a frequency that is written as a whole number of hertz, without a
/// unit.
pub fn parse_hz(s: &str) -> (r: Result<Hertz, Error>)
    ensures
        match parse_decimal(s@) {
            Some(hz) => r == Ok::<Hertz, Error>(Hertz(hz)),
            None => r is Err && r->Err_0.deep_view() == ErrorView::ParseHertz(s@),
        },
{
    match parse_u64(s) {
        Some(hz) => Ok(Hertz(hz)),
        None => Err(Error::ParseHertz(String::from_str(s))),
    }
}

} // verus!
