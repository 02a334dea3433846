//! A value type for character-set names as they appear in Media Types and
//! HTTP header values.
//!
//! A [`Charset`] is either one of the registered names from the IANA
//! character-set registry that this crate knows, or an `Unregistered` escape
//! carrying an arbitrary name. Values can be parsed from strings (matching
//! registered names without regard to ASCII case), rendered back to their
//! canonical form, and compared (case-insensitively for unregistered names).

use vstd::prelude::*;

pub mod ascii;
pub mod laws;

use crate::ascii::eq_ignore_ascii_case;
use crate::ascii::eq_ignore_case;

verus! {

/// An error in handling a charset name.
#[derive(Debug, PartialEq, Eq, Structural)]
pub enum Error {
    /// The given value does not denote a usable charset. No current
    /// operation returns it; parsing falls back to `Charset::Unregistered`
    /// instead of failing.
    Invalid,
}

impl Error {
    /// A human-readable description of the error.
    pub fn description(&self) -> (r: &str)
        ensures
            r@ == "The given charset is invalid"@,
    {
        "The given charset is invalid"
    }
}

/// A Mime charset.
///
/// The registered variants are identified by which variant they are, not by
/// their name string; `Unregistered` carries an arbitrary caller-supplied
/// name. The string representation of a registered variant is its canonical
/// (upper-case) registry name.
///
/// See <http://www.iana.org/assignments/character-sets/character-sets.xhtml>.
#[derive(Clone, Debug, Eq, Ord, PartialOrd)]
pub enum Charset {
    /// US ASCII
    UsAscii,
    /// ISO-8859-1
    Iso88591,
    /// ISO-8859-2
    Iso88592,
    /// ISO-8859-3
    Iso88593,
    /// ISO-8859-4
    Iso88594,
    /// ISO-8859-5
    Iso88595,
    /// ISO-8859-6
    Iso88596,
    /// ISO-8859-7
    Iso88597,
    /// ISO-8859-8
    Iso88598,
    /// ISO-8859-9
    Iso88599,
    /// ISO-8859-10
    Iso885910,
    /// Shift-JIS
    ShiftJis,
    /// EUC-JP
    EucJp,
    /// ISO-2022-KR
    Iso2022Kr,
    /// EUC-KR
    EucKr,
    /// ISO-2022-JP
    Iso2022Jp,
    /// ISO-2022-JP-2
    Iso2022Jp2,
    /// ISO-8859-6-E
    Iso88596E,
    /// ISO-8859-6-I
    Iso88596I,
    /// ISO-8859-8-E
    Iso88598E,
    /// ISO-8859-8-I
    Iso88598I,
    /// GB2312
    Gb2312,
    /// Big5
    Big5,
    /// KOI8-R
    Koi8R,
    /// An arbitrary charset specified as a string
    Unregistered(String),
}

impl Charset {
    /// Whether this value is one of the registered variants.
    pub open spec fn is_registered(self) -> bool {
        !(self is Unregistered)
    }

    /// The canonical name of a registered variant, or the carried string of
    /// an unregistered one, as a character sequence.
    pub open spec fn spec_name(self) -> Seq<char> {
        match self {
            Charset::UsAscii => "US-ASCII"@,
            Charset::Iso88591 => "ISO-8859-1"@,
            Charset::Iso88592 => "ISO-8859-2"@,
            Charset::Iso88593 => "ISO-8859-3"@,
            Charset::Iso88594 => "ISO-8859-4"@,
            Charset::Iso88595 => "ISO-8859-5"@,
            Charset::Iso88596 => "ISO-8859-6"@,
            Charset::Iso88597 => "ISO-8859-7"@,
            Charset::Iso88598 => "ISO-8859-8"@,
            Charset::Iso88599 => "ISO-8859-9"@,
            Charset::Iso885910 => "ISO-8859-10"@,
            Charset::ShiftJis => "Shift-JIS"@,
            Charset::EucJp => "EUC-JP"@,
            Charset::Iso2022Kr => "ISO-2022-KR"@,
            Charset::EucKr => "EUC-KR"@,
            Charset::Iso2022Jp => "ISO-2022-JP"@,
            Charset::Iso2022Jp2 => "ISO-2022-JP-2"@,
            Charset::Iso88596E => "ISO-8859-6-E"@,
            Charset::Iso88596I => "ISO-8859-6-I"@,
            Charset::Iso88598E => "ISO-8859-8-E"@,
            Charset::Iso88598I => "ISO-8859-8-I"@,
            Charset::Gb2312 => "GB2312"@,
            Charset::Big5 => "Big5"@,
            Charset::Koi8R => "KOI8-R"@,
            Charset::Unregistered(s) => s@,
        }
    }

    /// The string form of this charset: the canonical registry name of a
    /// registered variant, or the carried string of an unregistered one,
    /// verbatim.
    pub fn name(&self) -> (r: &str)
        ensures
            r@ == self.spec_name(),
    {
        match self {
            Charset::UsAscii => "US-ASCII",
            Charset::Iso88591 => "ISO-8859-1",
            Charset::Iso88592 => "ISO-8859-2",
            Charset::Iso88593 => "ISO-8859-3",
            Charset::Iso88594 => "ISO-8859-4",
            Charset::Iso88595 => "ISO-8859-5",
            Charset::Iso88596 => "ISO-8859-6",
            Charset::Iso88597 => "ISO-8859-7",
            Charset::Iso88598 => "ISO-8859-8",
            Charset::Iso88599 => "ISO-8859-9",
            Charset::Iso885910 => "ISO-8859-10",
            Charset::ShiftJis => "Shift-JIS",
            Charset::EucJp => "EUC-JP",
            Charset::Iso2022Kr => "ISO-2022-KR",
            Charset::EucKr => "EUC-KR",
            Charset::Iso2022Jp => "ISO-2022-JP",
            Charset::Iso2022Jp2 => "ISO-2022-JP-2",
            Charset::Iso88596E => "ISO-8859-6-E",
            Charset::Iso88596I => "ISO-8859-6-I",
            Charset::Iso88598E => "ISO-8859-8-E",
            Charset::Iso88598I => "ISO-8859-8-I",
            Charset::Gb2312 => "GB2312",
            Charset::Big5 => "Big5",
            Charset::Koi8R => "KOI8-R",
            Charset::Unregistered(s) => s.as_str(),
        }
    }

    /// Parse a free-form string into a charset.
    ///
    /// The input is matched against the canonical registry names without
    /// regard to ASCII case; when none matches, the result is an
    /// `Unregistered` value carrying the input verbatim, original casing
    /// preserved. Parsing never fails: the fallible signature is kept so the
    /// contract can be tightened later without changing shape.
    pub fn from_str(s: &str) -> (r: Result<Charset, Error>)
        ensures
            r matches Ok(c) && parses_to(s@, c),
    {
        let c = if eq_ignore_ascii_case(s, "US-ASCII") {
            Charset::UsAscii
        } else if eq_ignore_ascii_case(s, "ISO-8859-1") {
            Charset::Iso88591
        } else if eq_ignore_ascii_case(s, "ISO-8859-2") {
            Charset::Iso88592
        } else if eq_ignore_ascii_case(s, "ISO-8859-3") {
            Charset::Iso88593
        } else if eq_ignore_ascii_case(s, "ISO-8859-4") {
            Charset::Iso88594
        } else if eq_ignore_ascii_case(s, "ISO-8859-5") {
            Charset::Iso88595
        } else if eq_ignore_ascii_case(s, "ISO-8859-6") {
            Charset::Iso88596
        } else if eq_ignore_ascii_case(s, "ISO-8859-7") {
            Charset::Iso88597
        } else if eq_ignore_ascii_case(s, "ISO-8859-8") {
            Charset::Iso88598
        } else if eq_ignore_ascii_case(s, "ISO-8859-9") {
            Charset::Iso88599
        } else if eq_ignore_ascii_case(s, "ISO-8859-10") {
            Charset::Iso885910
        } else if eq_ignore_ascii_case(s, "Shift-JIS") {
            Charset::ShiftJis
        } else if eq_ignore_ascii_case(s, "EUC-JP") {
            Charset::EucJp
        } else if eq_ignore_ascii_case(s, "ISO-2022-KR") {
            Charset::Iso2022Kr
        } else if eq_ignore_ascii_case(s, "EUC-KR") {
            Charset::EucKr
        } else if eq_ignore_ascii_case(s, "ISO-2022-JP") {
            Charset::Iso2022Jp
        } else if eq_ignore_ascii_case(s, "ISO-2022-JP-2") {
            Charset::Iso2022Jp2
        } else if eq_ignore_ascii_case(s, "ISO-8859-6-E") {
            Charset::Iso88596E
        } else if eq_ignore_ascii_case(s, "ISO-8859-6-I") {
            Charset::Iso88596I
        } else if eq_ignore_ascii_case(s, "ISO-8859-8-E") {
            Charset::Iso88598E
        } else if eq_ignore_ascii_case(s, "ISO-8859-8-I") {
            Charset::Iso88598I
        } else if eq_ignore_ascii_case(s, "GB2312") {
            Charset::Gb2312
        } else if eq_ignore_ascii_case(s, "Big5") {
            Charset::Big5
        } else if eq_ignore_ascii_case(s, "KOI8-R") {
            Charset::Koi8R
        } else {
            Charset::Unregistered(s.to_owned())
        };
        Ok(c)
    }
}

impl core::str::FromStr for Charset {
    type Err = Error;

    fn from_str(s: &str) -> Result<Charset, Error> {
        Charset::from_str(s)
    }
}

/// The registered variant whose canonical name matches `s` up to ASCII case,
/// if any. The table of canonical names is scanned in declaration order;
/// since the names are pairwise distinct up to ASCII case (see
/// `laws::lemma_table_names_distinct`), at most one entry can match.
pub open spec fn spec_lookup(s: Seq<char>) -> Option<Charset> {
    if eq_ignore_case(s, "US-ASCII"@) {
        Some(Charset::UsAscii)
    } else if eq_ignore_case(s, "ISO-8859-1"@) {
        Some(Charset::Iso88591)
    } else if eq_ignore_case(s, "ISO-8859-2"@) {
        Some(Charset::Iso88592)
    } else if eq_ignore_case(s, "ISO-8859-3"@) {
        Some(Charset::Iso88593)
    } else if eq_ignore_case(s, "ISO-8859-4"@) {
        Some(Charset::Iso88594)
    } else if eq_ignore_case(s, "ISO-8859-5"@) {
        Some(Charset::Iso88595)
    } else if eq_ignore_case(s, "ISO-8859-6"@) {
        Some(Charset::Iso88596)
    } else if eq_ignore_case(s, "ISO-8859-7"@) {
        Some(Charset::Iso88597)
    } else if eq_ignore_case(s, "ISO-8859-8"@) {
        Some(Charset::Iso88598)
    } else if eq_ignore_case(s, "ISO-8859-9"@) {
        Some(Charset::Iso88599)
    } else if eq_ignore_case(s, "ISO-8859-10"@) {
        Some(Charset::Iso885910)
    } else if eq_ignore_case(s, "Shift-JIS"@) {
        Some(Charset::ShiftJis)
    } else if eq_ignore_case(s, "EUC-JP"@) {
        Some(Charset::EucJp)
    } else if eq_ignore_case(s, "ISO-2022-KR"@) {
        Some(Charset::Iso2022Kr)
    } else if eq_ignore_case(s, "EUC-KR"@) {
        Some(Charset::EucKr)
    } else if eq_ignore_case(s, "ISO-2022-JP"@) {
        Some(Charset::Iso2022Jp)
    } else if eq_ignore_case(s, "ISO-2022-JP-2"@) {
        Some(Charset::Iso2022Jp2)
    } else if eq_ignore_case(s, "ISO-8859-6-E"@) {
        Some(Charset::Iso88596E)
    } else if eq_ignore_case(s, "ISO-8859-6-I"@) {
        Some(Charset::Iso88596I)
    } else if eq_ignore_case(s, "ISO-8859-8-E"@) {
        Some(Charset::Iso88598E)
    } else if eq_ignore_case(s, "ISO-8859-8-I"@) {
        Some(Charset::Iso88598I)
    } else if eq_ignore_case(s, "GB2312"@) {
        Some(Charset::Gb2312)
    } else if eq_ignore_case(s, "Big5"@) {
        Some(Charset::Big5)
    } else if eq_ignore_case(s, "KOI8-R"@) {
        Some(Charset::Koi8R)
    } else {
        None
    }
}

/// What parsing the character sequence `s` must yield: the registered
/// variant whose canonical name matches `s` up to ASCII case, or, when none
/// does, an unregistered value carrying `s` verbatim.
pub open spec fn parses_to(s: Seq<char>, c: Charset) -> bool {
    match spec_lookup(s) {
        Some(reg) => c == reg,
        None => c matches Charset::Unregistered(u) && u@ == s,
    }
}

/// What `==` means on `Charset` values: equality is structural on the tagged
/// shape. Two registered variants are equal exactly when they are the same
/// variant; two unregistered values are equal exactly when their carried
/// strings match up to ASCII case; a registered and an unregistered value are
/// never equal, even when the unregistered string spells a canonical name.
pub open spec fn charset_eq(a: Charset, b: Charset) -> bool {
    match (a, b) {
        (Charset::Unregistered(s), Charset::Unregistered(t)) => eq_ignore_case(s@, t@),
        _ => a == b,
    }
}

impl PartialEq for Charset {
    fn eq(&self, other: &Self) -> (r: bool) {
        match (self, other) {
            (Charset::Unregistered(s), Charset::Unregistered(t)) => eq_ignore_ascii_case(
                s.as_str(),
                t.as_str(),
            ),
            (Charset::UsAscii, Charset::UsAscii) => true,
            (Charset::Iso88591, Charset::Iso88591) => true,
            (Charset::Iso88592, Charset::Iso88592) => true,
            (Charset::Iso88593, Charset::Iso88593) => true,
            (Charset::Iso88594, Charset::Iso88594) => true,
            (Charset::Iso88595, Charset::Iso88595) => true,
            (Charset::Iso88596, Charset::Iso88596) => true,
            (Charset::Iso88597, Charset::Iso88597) => true,
            (Charset::Iso88598, Charset::Iso88598) => true,
            (Charset::Iso88599, Charset::Iso88599) => true,
            (Charset::Iso885910, Charset::Iso885910) => true,
            (Charset::ShiftJis, Charset::ShiftJis) => true,
            (Charset::EucJp, Charset::EucJp) => true,
            (Charset::Iso2022Kr, Charset::Iso2022Kr) => true,
            (Charset::EucKr, Charset::EucKr) => true,
            (Charset::Iso2022Jp, Charset::Iso2022Jp) => true,
            (Charset::Iso2022Jp2, Charset::Iso2022Jp2) => true,
            (Charset::Iso88596E, Charset::Iso88596E) => true,
            (Charset::Iso88596I, Charset::Iso88596I) => true,
            (Charset::Iso88598E, Charset::Iso88598E) => true,
            (Charset::Iso88598I, Charset::Iso88598I) => true,
            (Charset::Gb2312, Charset::Gb2312) => true,
            (Charset::Big5, Charset::Big5) => true,
            (Charset::Koi8R, Charset::Koi8R) => true,
            _ => false,
        }
    }
}

impl vstd::std_specs::cmp::PartialEqSpecImpl for Charset {
    open spec fn obeys_eq_spec() -> bool {
        true
    }

    open spec fn eq_spec(&self, other: &Charset) -> bool {
        charset_eq(*self, *other)
    }
}

} // verus!
