use vstd::prelude::*;
use vstd::string::StringExecFns;
use crate::numfmt::digit_char;
use crate::icons::default_icon;
use crate::icons::default_icon_spec;
use crate::size::si_format;
use crate::size::si_size_spec;
use crate::style::GlyphColor;
use crate::style::colorize;
use crate::style::colorize_spec;
use chrono::TimeZone;

verus! {

/// Glyph shown in place of the default file icon for executables.
pub open spec fn executable_icon_spec() -> Seq<char> {
    "\u{f96d}"@
}

pub fn executable_icon() -> (r: &'static str)
    ensures
        r@ == executable_icon_spec(),
{
    "\u{f96d}"
}

/// Largest timestamp the time formatter accepts: the last millisecond of
/// year 9999, far inside chrono's documented range.
pub const MAX_TIMESTAMP_MS: u64 = 253_402_300_799_999;

/// One directory child as the listing shows it: a resolved icon, the
/// plain name, the byte size, the POSIX permission word, the modification
/// time in milliseconds since the Unix epoch, and the two type flags.
pub struct Entry {
    pub icon: String,
    pub name: String,
    pub bytes: u64,
    pub mode: u32,
    pub modified: u64,
    pub executable: bool,
    pub dir: bool,
}

/// Does `c` render as a decimal digit.
pub open spec fn is_digit(c: char) -> bool {
    '0' <= c && c <= '9'
}

/// The fixed shape of a formatted local time: three spaces, a zero-padded
/// month/day/year date, four spaces, a zero-padded 24-hour clock time.
pub open spec fn time_shaped(t: Seq<char>) -> bool {
    &&& t.len() == 20
    &&& t[0] == ' '
    &&& t[1] == ' '
    &&& t[2] == ' '
    &&& is_digit(t[3])
    &&& is_digit(t[4])
    &&& t[5] == '/'
    &&& is_digit(t[6])
    &&& is_digit(t[7])
    &&& t[8] == '/'
    &&& is_digit(t[9])
    &&& is_digit(t[10])
    &&& t[11] == ' '
    &&& t[12] == ' '
    &&& t[13] == ' '
    &&& t[14] == ' '
    &&& is_digit(t[15])
    &&& is_digit(t[16])
    &&& t[17] == ':'
    &&& is_digit(t[18])
    &&& is_digit(t[19])
}

/// Two zero-padded decimal digits of `n`, for `0 <= n < 100`.
pub open spec fn two_digits(n: int) -> Seq<char> {
    seq![digit_char((n / 10) as nat), digit_char((n % 10) as nat)]
}

/// The proleptic-Gregorian civil date (year, month, day) of a day count,
/// day 0 being 1970-01-01. This is the standard era-based conversion:
/// days are shifted so eras of 146097 days start on 0000-03-01, the year
/// and day-of-year come from the era, and months are counted from March
/// so the leap day falls last.
pub open spec fn civil_from_days(days: int) -> (int, int, int) {
    let z = days + 719468;
    let era = z / 146097;
    let doe = z - era * 146097;
    let yoe = (doe - doe / 1461 + doe / 36524 - doe / 146096) / 365;
    let y = yoe + era * 400;
    let doy = doe - (365 * yoe + yoe / 4 - yoe / 100);
    let mp = (5 * doy + 2) / 153;
    let d = doy - (153 * mp + 2) / 5 + 1;
    let m = if mp < 10 {
        mp + 3
    } else {
        mp - 9
    };
    ((if m <= 2 {
        y + 1
    } else {
        y
    }), m, d)
}

/// The "   MM/DD/YY    HH:MM" rendering of `ms` milliseconds since the
/// Unix epoch, shifted east by `off` seconds: month, day, year modulo
/// 100 and the 24-hour clock time of that shifted instant, each as two
/// zero-padded digits.
pub open spec fn local_render_spec(ms: nat, off: int) -> Seq<char> {
    let s = ms as int / 1000 + off;
    let days = s / 86400;
    let sod = s % 86400;
    let ymd = civil_from_days(days);
    "   "@ + two_digits(ymd.1) + "/"@ + two_digits(ymd.2) + "/"@ + two_digits(ymd.0 % 100)
        + "    "@ + two_digits(sod / 3600) + ":"@ + two_digits((sod % 3600) / 60)
}

/// Is `t` a local rendering of `ms`: the exact rendering for some UTC
/// offset of strictly less than one day either way (the bound chrono's
/// `FixedOffset` enforces). Which offset applies depends on the machine's
/// time zone; everything else is pinned.
pub open spec fn is_local_time_of(t: Seq<char>, ms: nat) -> bool {
    exists|off: int| -86400 < off < 86400 && t == local_render_spec(ms, off)
}

/// The timestamp `pretty_time` renders: one past year 9999 falls back to
/// the epoch.
pub open spec fn clamped_ms(modified: u64) -> nat {
    if modified <= MAX_TIMESTAMP_MS {
        modified as nat
    } else {
        0
    }
}

/// Relies on chrono: `Local::timestamp_millis_opt` is `Single` for any
/// in-range count of milliseconds; the local offset reaches the formatter
/// as a `FixedOffset`, which is strictly less than one day either way;
/// and formatting with "   %D    %R" renders the zero-padded month, day,
/// year modulo 100, hour and minute of the offset-shifted instant in
/// proleptic-Gregorian reckoning. Which offset the machine's time zone
/// picks is not stated; everything else is.
#[verifier::external_body]
pub(crate) fn format_local_timestamp(ms: u64) -> (r: String)
    requires
        ms <= MAX_TIMESTAMP_MS,
    ensures
        time_shaped(r@),
        is_local_time_of(r@, ms as nat),
{
    chrono::Local.timestamp_millis_opt(ms as i64).unwrap().format("   %D    %R").to_string()
}

impl Entry {
    /// The byte size as a human-readable SI string, unit suffix included.
    pub fn pretty_size(&self) -> (r: String)
        ensures
            r@ == si_size_spec(self.bytes as nat),
    {
        si_format(self.bytes)
    }

    /// The modification time as local "   MM/DD/YY    HH:MM". A timestamp
    /// past year 9999 falls back to the epoch rather than failing.
    pub fn pretty_time(&self) -> (r: String)
        ensures
            time_shaped(r@),
            is_local_time_of(r@, clamped_ms(self.modified)),
    {
        if self.modified <= MAX_TIMESTAMP_MS {
            format_local_timestamp(self.modified)
        } else {
            format_local_timestamp(0)
        }
    }

    /// How `pretty_icon` renders: an executable entry is colored red, with
    /// the substitute glyph in place of the plain default icon; every
    /// other entry keeps its resolved icon unchanged.
    pub open spec fn pretty_icon_spec(&self) -> Seq<char> {
        if self.executable {
            if self.icon@ == default_icon_spec() {
                colorize_spec(executable_icon_spec(), GlyphColor::Red)
            } else {
                colorize_spec(self.icon@, GlyphColor::Red)
            }
        } else {
            self.icon@
        }
    }

    /// The icon as printed.
    pub fn pretty_icon(&self) -> (r: String)
        ensures
            r@ == self.pretty_icon_spec(),
    {
        if self.executable {
            let def = String::from_str(default_icon());
            if self.icon == def {
                colorize(executable_icon(), GlyphColor::Red)
            } else {
                colorize(self.icon.as_str(), GlyphColor::Red)
            }
        } else {
            self.icon.clone()
        }
    }
}

/// Does the permission word carry any execute bit: owner, group or other.
pub fn is_executable(mode: u32) -> (r: bool)
    ensures
        r == (mode & 0o111 != 0),
{
    mode & 0o111 != 0
}

/// An executable entry whose resolved icon is the default renders the
/// substitute glyph colored red; a non-executable entry with the same
/// default icon renders it unmodified.
pub proof fn lemma_executable_substitution(a: &Entry, b: &Entry)
    requires
        a.icon@ == default_icon_spec(),
        a.executable,
        b.icon@ == default_icon_spec(),
        !b.executable,
    ensures
        a.pretty_icon_spec() == colorize_spec(executable_icon_spec(), GlyphColor::Red),
        b.pretty_icon_spec() == b.icon@,
{
}

} // verus!
