//! GNSS: position fixes and module power.
//!
//! The modem answers `AT+CGNSINF` with one `+CGNSINF: ...` line of
//! comma-separated fields, and `AT+CGNSPWR?` with a `+CGNSPWR: d` power
//! flag. The resolvers here read those lines; unparseable text is never a
//! fault, it simply means the response is not complete yet.

use vstd::prelude::*;

use crate::datetime::{timestamp_of, Timestamp};
use crate::error::Error;
use crate::text::{
    decimal_of, digits_value_in, field_u8, fields_of, first_char_from,
    first_sub_from, Decimal,
};
use crate::resolver::ResolverKind;
use crate::serial_port::{process_view, CommandRequest};
use crate::text;

verus! {

/// A GNSS fix as [`GNSS::get_data`] reports it. Coordinates, altitude,
/// speed and course are plain decimal numbers exactly as the modem printed
/// them.
#[derive(Clone, Copy, Debug, PartialEq, Eq, Structural)]
pub struct GNSSData {
    pub lat: Decimal,
    pub lon: Decimal,
    /// Meters above mean sea level.
    pub alt: Decimal,
    /// km/h.
    pub ground_speed: Decimal,
    /// Degrees.
    pub ground_course: Decimal,
    pub sats_in_view: u8,
    pub sats_in_use: u8,
    pub utc_datetime: Timestamp,
}

/// The tag that opens the fix report line.
pub open spec fn fix_marker() -> Seq<char> {
    "+CGNSINF: "@
}

/// The tag that opens the power report line.
pub open spec fn power_marker() -> Seq<char> {
    "+CGNSPWR: "@
}

/// The comma-separated fields of the `+CGNSINF` payload: everything after
/// the first tag up to the end of its line, the closing `\r` of the
/// line's `\r\n` excluded.
pub open spec fn fix_fields(text: Seq<char>) -> Option<Seq<Seq<char>>> {
    match first_sub_from(text, fix_marker(), 0) {
        Some(k) => {
            let start = k + fix_marker().len();
            let nl = match first_char_from(text, '\n', start) {
                Some(e) => e,
                None => text.len() as int,
            };
            let stop = if start < nl && nl <= text.len() && text[nl - 1] == '\r' {
                nl - 1
            } else {
                nl
            };
            if 0 <= start <= stop <= text.len() {
                Some(fields_of(text.subrange(start, stop)))
            } else {
                None
            }
        },
        None => None,
    }
}

/// The `yyyymmddhhmmss` digit block that opens the UTC field of a fix.
pub open spec fn fix_timestamp(s: Seq<char>) -> Option<Timestamp> {
    if s.len() >= 14 {
        match (
            digits_value_in(s, 0, 4),
            digits_value_in(s, 4, 6),
            digits_value_in(s, 6, 8),
            digits_value_in(s, 8, 10),
            digits_value_in(s, 10, 12),
            digits_value_in(s, 12, 14),
        ) {
            (Some(y), Some(mo), Some(d), Some(h), Some(mi), Some(sec)) =>
                timestamp_of(y, mo, d, h, mi, sec),
            _ => None,
        }
    } else {
        None
    }
}

/// What the fix resolver returns on a given response text: `NotResolved`
/// until a `+CGNSINF` line is present, `GnssModuleOff` as soon as its
/// run-status field reads zero, `GnssNotFixed` as soon as its fix-status
/// field reads zero — both regardless of how much of the line follows —
/// and otherwise the fix built from the UTC, coordinate, motion and
/// satellite fields of the full line.
pub open spec fn gnss_resolution(text: Seq<char>) -> Result<GNSSData, Error> {
    match fix_fields(text) {
        None => Err(Error::NotResolved),
        Some(fs) => match field_u8(fs[0]) {
            None => Err(Error::NotResolved),
            Some(run) => if run == 0 {
                Err(Error::GnssModuleOff)
            } else if fs.len() < 2 {
                Err(Error::NotResolved)
            } else {
                match field_u8(fs[1]) {
                    None => Err(Error::NotResolved),
                    Some(fix) => if fix == 0 {
                        Err(Error::GnssNotFixed)
                    } else if fs.len() < 19 {
                        Err(Error::NotResolved)
                    } else {
                        match (
                            fix_timestamp(fs[2]),
                            decimal_of(fs[3]),
                            decimal_of(fs[4]),
                            decimal_of(fs[5]),
                            decimal_of(fs[6]),
                            decimal_of(fs[7]),
                            field_u8(fs[17]),
                            field_u8(fs[18]),
                        ) {
                            (
                                Some(ts),
                                Some(lat),
                                Some(lon),
                                Some(alt),
                                Some(spd),
                                Some(crs),
                                Some(siv),
                                Some(siu),
                            ) => Ok(
                                GNSSData {
                                    lat,
                                    lon,
                                    alt,
                                    ground_speed: spd,
                                    ground_course: crs,
                                    sats_in_view: siv as u8,
                                    sats_in_use: siu as u8,
                                    utc_datetime: ts,
                                },
                            ),
                            _ => Err(Error::NotResolved),
                        }
                    },
                }
            },
        },
    }
}

/// What the power resolver returns: the digit directly after the first
/// `+CGNSPWR: ` tag decides on or off; anything else is not yet resolved.
pub open spec fn gnss_power_resolution(text: Seq<char>) -> Result<bool, Error> {
    match first_sub_from(text, power_marker(), 0) {
        Some(k) => {
            let pos = k + power_marker().len();
            if 0 <= pos < text.len() && text::is_digit(text[pos]) {
                Ok(text::digit_val(text[pos]) == 1)
            } else {
                Err(Error::NotResolved)
            }
        },
        None => Err(Error::NotResolved),
    }
}

/// Reads a `+CGNSINF` fix report.
pub fn parse_gnss_data(text: &str) -> (r: Result<GNSSData, Error>)
    ensures
        r == gnss_resolution(text@),
{
    proof {
        reveal_strlit("+CGNSINF: ");
    }
    let n = text.unicode_len();
    let k = match text::find_sub_from(text, "+CGNSINF: ", 0) {
        Some(k) => k,
        None => {
            return Err(Error::NotResolved);
        },
    };
    proof {
        text::lemma_first_sub_from(text@, fix_marker(), 0);
    }
    let start = k + 10;
    let nl = match text::find_char_from(text, '\n', start) {
        Some(e) => e,
        None => n,
    };
    proof {
        text::lemma_first_char_from(text@, '\n', start as int);
    }
    let stop = if start < nl && text.get_char(nl - 1) == '\r' {
        nl - 1
    } else {
        nl
    };
    let line = text.substring_char(start, stop);
    let fields = text::split_commas(line, 0);
    proof {
        assert(line@ =~= text@.subrange(start as int, stop as int));
        assert(fields.deep_view() == fields_of(text@.subrange(
            start as int,
            stop as int,
        )));
    }
    proof {
        assert(fields.deep_view().len() > 0);
    }
    let run = match text::parse_field_u8(fields[0].as_str()) {
        Some(v) => v,
        None => {
            return Err(Error::NotResolved);
        },
    };
    if run == 0 {
        return Err(Error::GnssModuleOff);
    }
    if fields.len() < 2 {
        return Err(Error::NotResolved);
    }
    let fix = match text::parse_field_u8(fields[1].as_str()) {
        Some(v) => v,
        None => {
            return Err(Error::NotResolved);
        },
    };
    if fix == 0 {
        return Err(Error::GnssNotFixed);
    }
    if fields.len() < 19 {
        return Err(Error::NotResolved);
    }
    let ts = match parse_fix_timestamp(fields[2].as_str()) {
        Some(v) => v,
        None => {
            return Err(Error::NotResolved);
        },
    };
    let lat = match text::parse_decimal(fields[3].as_str()) {
        Some(v) => v,
        None => {
            return Err(Error::NotResolved);
        },
    };
    let lon = match text::parse_decimal(fields[4].as_str()) {
        Some(v) => v,
        None => {
            return Err(Error::NotResolved);
        },
    };
    let alt = match text::parse_decimal(fields[5].as_str()) {
        Some(v) => v,
        None => {
            return Err(Error::NotResolved);
        },
    };
    let spd = match text::parse_decimal(fields[6].as_str()) {
        Some(v) => v,
        None => {
            return Err(Error::NotResolved);
        },
    };
    let crs = match text::parse_decimal(fields[7].as_str()) {
        Some(v) => v,
        None => {
            return Err(Error::NotResolved);
        },
    };
    let siv = match text::parse_field_u8(fields[17].as_str()) {
        Some(v) => v,
        None => {
            return Err(Error::NotResolved);
        },
    };
    let siu = match text::parse_field_u8(fields[18].as_str()) {
        Some(v) => v,
        None => {
            return Err(Error::NotResolved);
        },
    };
    Ok(
        GNSSData {
            lat,
            lon,
            alt,
            ground_speed: spd,
            ground_course: crs,
            sats_in_view: siv,
            sats_in_use: siu,
            utc_datetime: ts,
        },
    )
}

/// Reads the `yyyymmddhhmmss` block that opens the UTC field of a fix.
fn parse_fix_timestamp(t: &str) -> (r: Option<Timestamp>)
    ensures
        r == fix_timestamp(t@),
{
    let n = t.unicode_len();
    if n < 14 {
        return None;
    }
    let y = match text::parse_digits_u64(t, 0, 4) {
        Some(v) => v,
        None => {
            return None;
        },
    };
    let mo = match text::parse_digits_u64(t, 4, 6) {
        Some(v) => v,
        None => {
            return None;
        },
    };
    let d = match text::parse_digits_u64(t, 6, 8) {
        Some(v) => v,
        None => {
            return None;
        },
    };
    let h = match text::parse_digits_u64(t, 8, 10) {
        Some(v) => v,
        None => {
            return None;
        },
    };
    let mi = match text::parse_digits_u64(t, 10, 12) {
        Some(v) => v,
        None => {
            return None;
        },
    };
    let sec = match text::parse_digits_u64(t, 12, 14) {
        Some(v) => v,
        None => {
            return None;
        },
    };
    proof {
        text::lemma_digits_val_bound(t@.subrange(0, 4));
        text::lemma_pow10_le_18(4);
        text::lemma_digits_val_bound(t@.subrange(4, 6));
        text::lemma_digits_val_bound(t@.subrange(6, 8));
        text::lemma_digits_val_bound(t@.subrange(8, 10));
        text::lemma_digits_val_bound(t@.subrange(10, 12));
        text::lemma_digits_val_bound(t@.subrange(12, 14));
        text::lemma_pow10_le_18(2);
        reveal_with_fuel(text::pow10, 5);
        assert(text::pow10(4) == 10000);
        assert(text::pow10(2) == 100);
    }
    Timestamp::make(y as u16, mo as u8, d as u8, h as u8, mi as u8, sec as u8)
}

/// Reads a `+CGNSPWR` power report.
pub fn parse_gnss_power(text: &str) -> (r: Result<bool, Error>)
    ensures
        r == gnss_power_resolution(text@),
{
    proof {
        reveal_strlit("+CGNSPWR: ");
    }
    let n = text.unicode_len();
    let k = match text::find_sub_from(text, "+CGNSPWR: ", 0) {
        Some(k) => k,
        None => {
            return Err(Error::NotResolved);
        },
    };
    proof {
        text::lemma_first_sub_from(text@, power_marker(), 0);
    }
    let pos = k + 10;
    if pos < n {
        let c = text.get_char(pos);
        if '0' <= c && c <= '9' {
            return Ok(c == '1');
        }
    }
    Err(Error::NotResolved)
}

/// The GNSS feature: module power and position fixes.
pub struct GNSS {
}

impl GNSS {
    /// The GNSS feature handle.
    pub fn new() -> (r: GNSS) {
        GNSS {  }
    }

    /// Plans the power probe: `AT+CGNSPWR?`, answered through the power
    /// resolver, run under one normal-priority task.
    pub fn is_on(&self) -> (r: CommandRequest)
        ensures
            r@ == process_view("AT+CGNSPWR?\n"@, ResolverKind::GnssPower, None),
    {
        crate::serial_port::process_request(
            "AT+CGNSPWR?\n",
            ResolverKind::GnssPower,
            None,
        )
    }

    /// Plans switching the GNSS module on.
    pub fn turn_on(&self) -> (r: CommandRequest)
        ensures
            r@ == process_view("AT+CGNSPWR=1\n"@, ResolverKind::GnssSet, None),
    {
        crate::serial_port::process_request(
            "AT+CGNSPWR=1\n",
            ResolverKind::GnssSet,
            None,
        )
    }

    /// Plans switching the GNSS module off.
    pub fn turn_off(&self) -> (r: CommandRequest)
        ensures
            r@ == process_view("AT+CGNSPWR=0\n"@, ResolverKind::GnssSet, None),
    {
        crate::serial_port::process_request(
            "AT+CGNSPWR=0\n",
            ResolverKind::GnssSet,
            None,
        )
    }

    /// Plans the fix request: `AT+CGNSINF`, answered through the fix
    /// resolver.
    pub fn get_data(&self) -> (r: CommandRequest)
        ensures
            r@ == process_view("AT+CGNSINF\n"@, ResolverKind::GnssFix, None),
    {
        crate::serial_port::process_request(
            "AT+CGNSINF\n",
            ResolverKind::GnssFix,
            None,
        )
    }
}

} // verus!
