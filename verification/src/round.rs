//! Competition rounds: the period label derived from the effective start
//! date, the date-time grammar for administrative round creation, and the
//! calendar arithmetic that turns a wall-clock date into epoch seconds.

use vstd::prelude::*;

verus! {

/// A time-boxed competition period. `round_time` is the effective start
/// (epoch seconds, UTC); `create_time` orders rounds, the highest being
/// the latest.
#[derive(Debug, Clone, PartialEq)]
#[verifier::ext_equal]
pub struct Round {
    pub id: u64,
    pub code: Vec<u8>,
    pub round_time: i64,
    pub create_time: i64,
}

impl Round {
    pub fn get_id(&self) -> (r: u64)
        ensures
            r == self.id,
    {
        self.id
    }

    pub fn get_code(&self) -> (r: &Vec<u8>)
        ensures
            r@ == self.code@,
    {
        &self.code
    }

    /// Whether the round has not opened yet at wall-clock time `now`.
    pub fn check_not_now(&self, now: i64) -> (r: bool)
        ensures
            r == (self.round_time > now),
    {
        self.round_time > now
    }
}

/// A wall-clock date and time, as parsed from an administrative round
/// creation request.
#[derive(Debug, Clone, Copy, PartialEq, Eq, Structural)]
pub struct RoundTime {
    pub year: u16,
    pub month: u8,
    pub day: u8,
    pub hour: u8,
    pub minute: u8,
    pub second: u8,
}

pub open spec fn is_leap_year(y: int) -> bool {
    y % 4 == 0 && (y % 100 != 0 || y % 400 == 0)
}

pub open spec fn days_in_month(y: int, m: int) -> int {
    if m == 2 {
        if is_leap_year(y) {
            29
        } else {
            28
        }
    } else if m == 4 || m == 6 || m == 9 || m == 11 {
        30
    } else {
        31
    }
}

pub open spec fn days_in_year(y: int) -> int {
    if is_leap_year(y) {
        366
    } else {
        365
    }
}

/// Days from 1970-01-01 to the first day of year `y`.
pub open spec fn days_before_year(y: int) -> int
    decreases y - 1970,
{
    if y <= 1970 {
        0
    } else {
        days_before_year(y - 1) + days_in_year(y - 1)
    }
}

/// Days from the first day of year `y` to the first day of its month `m`.
pub open spec fn days_before_month(y: int, m: int) -> int
    decreases m,
{
    if m <= 1 {
        0
    } else {
        days_before_month(y, m - 1) + days_in_month(y, m - 1)
    }
}

/// Days from 1970-01-01 to the civil date `y`-`m`-`d`.
pub open spec fn days_from_epoch(y: int, m: int, d: int) -> int {
    days_before_year(y) + days_before_month(y, m) + (d - 1)
}

/// The moment `t`, read as a wall-clock time, in seconds since the epoch.
pub open spec fn epoch_seconds_spec(t: RoundTime) -> int {
    days_from_epoch(t.year as int, t.month as int, t.day as int) * 86400 + t.hour * 3600
        + t.minute * 60 + t.second
}

/// A valid calendar time within the supported range.
pub open spec fn valid_round_time(t: RoundTime) -> bool {
    &&& 1970 <= t.year <= 9999
    &&& 1 <= t.month <= 12
    &&& 1 <= t.day <= days_in_month(t.year as int, t.month as int)
    &&& t.hour < 24
    &&& t.minute < 60
    &&& t.second < 60
}

proof fn lemma_days_before_year_bound(y: int)
    requires
        1970 <= y <= 10000,
    ensures
        0 <= days_before_year(y) <= (y - 1970) * 366,
    decreases y - 1970,
{
    if y > 1970 {
        lemma_days_before_year_bound(y - 1);
    }
}

proof fn lemma_days_before_month_bound(y: int, m: int)
    requires
        1 <= m <= 13,
    ensures
        0 <= days_before_month(y, m) <= (m - 1) * 31,
    decreases m,
{
    if m > 1 {
        lemma_days_before_month_bound(y, m - 1);
    }
}

fn is_leap(y: u16) -> (r: bool)
    ensures
        r == is_leap_year(y as int),
{
    y % 4 == 0 && (y % 100 != 0 || y % 400 == 0)
}

/// The number of days of month `m` of year `y`.
pub fn month_days(y: u16, m: u8) -> (r: u8)
    ensures
        r == days_in_month(y as int, m as int),
{
    if m == 2 {
        if is_leap(y) {
            29
        } else {
            28
        }
    } else if m == 4 || m == 6 || m == 9 || m == 11 {
        30
    } else {
        31
    }
}

/// Computes the epoch seconds of the wall-clock moment `t`.
pub fn epoch_seconds(t: &RoundTime) -> (r: i64)
    requires
        valid_round_time(*t),
    ensures
        r == epoch_seconds_spec(*t),
        0 <= r < 0x4_0000_0000_0000,
{
    let mut days: u32 = 0;
    let mut y: u16 = 1970;
    proof {
        lemma_days_before_year_bound(t.year as int);
    }
    while y < t.year
        invariant
            1970 <= y <= t.year <= 9999,
            days == days_before_year(y as int),
            days <= (y - 1970) * 366,
        decreases t.year - y,
    {
        proof {
            lemma_days_before_year_bound(y as int);
        }
        if is_leap(y) {
            days = days + 366;
        } else {
            days = days + 365;
        }
        y = y + 1;
    }
    let mut m: u8 = 1;
    while m < t.month
        invariant
            1 <= m <= t.month <= 12,
            1970 <= t.year <= 9999,
            days == days_before_year(t.year as int) + days_before_month(t.year as int, m as int),
            days <= (t.year - 1970) * 366 + (m - 1) * 31,
        decreases t.month - m,
    {
        days = days + month_days(t.year, m) as u32;
        m = m + 1;
    }
    proof {
        lemma_days_before_month_bound(t.year as int, t.month as int);
    }
    let total_days: i64 = days as i64 + (t.day - 1) as i64;
    total_days * 86400 + (t.hour as i64) * 3600 + (t.minute as i64) * 60 + t.second as i64
}

pub open spec fn is_digit(b: u8) -> bool {
    48 <= b <= 57
}

pub open spec fn dval(b: u8) -> int {
    b - 48
}

pub open spec fn two_digits(s: Seq<u8>, i: int) -> int {
    dval(s[i]) * 10 + dval(s[i + 1])
}

pub open spec fn four_digits(s: Seq<u8>, i: int) -> int {
    dval(s[i]) * 1000 + dval(s[i + 1]) * 100 + dval(s[i + 2]) * 10 + dval(s[i + 3])
}

/// The accepted date-time grammar: `YYYY-MM-DDTHH:MM`, optionally
/// followed by `:SS`.
pub open spec fn datetime_shape(s: Seq<u8>) -> bool {
    &&& (s.len() == 16 || s.len() == 19)
    &&& is_digit(s[0]) && is_digit(s[1]) && is_digit(s[2]) && is_digit(s[3])
    &&& s[4] == 45u8
    &&& is_digit(s[5]) && is_digit(s[6])
    &&& s[7] == 45u8
    &&& is_digit(s[8]) && is_digit(s[9])
    &&& s[10] == 84u8
    &&& is_digit(s[11]) && is_digit(s[12])
    &&& s[13] == 58u8
    &&& is_digit(s[14]) && is_digit(s[15])
    &&& (s.len() == 19 ==> s[16] == 58u8 && is_digit(s[17]) && is_digit(s[18]))
}

/// The field values spelled by a text of the accepted grammar; the
/// seconds default to zero in the short form.
pub open spec fn parsed_time(s: Seq<u8>) -> RoundTime {
    RoundTime {
        year: four_digits(s, 0) as u16,
        month: two_digits(s, 5) as u8,
        day: two_digits(s, 8) as u8,
        hour: two_digits(s, 11) as u8,
        minute: two_digits(s, 14) as u8,
        second: if s.len() == 19 {
            two_digits(s, 17) as u8
        } else {
            0u8
        },
    }
}

fn digit_at(b: &Vec<u8>, i: usize) -> (r: Option<u8>)
    requires
        i < b@.len(),
    ensures
        r matches Some(d) ==> is_digit(b@[i as int]) && d == dval(b@[i as int]),
        r is None ==> !is_digit(b@[i as int]),
{
    let c = b[i];
    if 48 <= c && c <= 57 {
        Some(c - 48)
    } else {
        None
    }
}

fn two_at(b: &Vec<u8>, i: usize) -> (r: Option<u8>)
    requires
        i + 1 < b@.len(),
    ensures
        r matches Some(v) ==> is_digit(b@[i as int]) && is_digit(b@[i + 1]) && v == two_digits(
            b@,
            i as int,
        ),
        r is None ==> !(is_digit(b@[i as int]) && is_digit(b@[i + 1])),
{
    let n = b.len();
    assert(i + 1 < n);
    match (digit_at(b, i), digit_at(b, i + 1)) {
        (Some(h), Some(l)) => Some(h * 10 + l),
        _ => None,
    }
}

/// Parses a round start time written as `YYYY-MM-DDTHH:MM[:SS]`. Returns
/// the parsed fields exactly when the text matches the grammar and spells
/// a valid calendar time in the supported range.
pub fn parse_round_time(b: &Vec<u8>) -> (r: Option<RoundTime>)
    ensures
        r is Some <==> datetime_shape(b@) && valid_round_time(parsed_time(b@)),
        r matches Some(t) ==> t == parsed_time(b@),
{
    let n = b.len();
    if !(n == 16 || n == 19) {
        return None;
    }
    let y_hi = match two_at(b, 0) {
        Some(v) => v,
        None => { return None },
    };
    let y_lo = match two_at(b, 2) {
        Some(v) => v,
        None => { return None },
    };
    if b[4] != 45 {
        return None;
    }
    let month = match two_at(b, 5) {
        Some(v) => v,
        None => { return None },
    };
    if b[7] != 45 {
        return None;
    }
    let day = match two_at(b, 8) {
        Some(v) => v,
        None => { return None },
    };
    if b[10] != 84 {
        return None;
    }
    let hour = match two_at(b, 11) {
        Some(v) => v,
        None => { return None },
    };
    if b[13] != 58 {
        return None;
    }
    let minute = match two_at(b, 14) {
        Some(v) => v,
        None => { return None },
    };
    let second: u8 = if n == 19 {
        if b[16] != 58 {
            return None;
        }
        match two_at(b, 17) {
            Some(v) => v,
            None => { return None },
        }
    } else {
        0
    };
    let year: u16 = y_hi as u16 * 100 + y_lo as u16;
    let t = RoundTime { year, month, day, hour, minute, second };
    assert(t == parsed_time(b@));
    if year < 1970 || month < 1 || month > 12 || day < 1 || day > month_days(year, month)
        || hour >= 24 || minute >= 60 || second >= 60 {
        return None;
    }
    Some(t)
}

/// The period label of a round starting at `t`: a fixed prefix followed
/// by the zero-padded start date.
pub open spec fn round_code_spec(t: RoundTime) -> Seq<u8> {
    seq![
        71u8,
        76u8,
        79u8,
        66u8,
        65u8,
        76u8,
        (48 + (t.year as int / 1000) % 10) as u8,
        (48 + (t.year as int / 100) % 10) as u8,
        (48 + (t.year as int / 10) % 10) as u8,
        (48 + t.year as int % 10) as u8,
        (48 + (t.month as int / 10) % 10) as u8,
        (48 + t.month as int % 10) as u8,
        (48 + (t.day as int / 10) % 10) as u8,
        (48 + t.day as int % 10) as u8,
    ]
}

/// Builds the period label of a round starting at `t`.
pub fn round_code(t: &RoundTime) -> (r: Vec<u8>)
    ensures
        r@ == round_code_spec(*t),
{
    let mut r: Vec<u8> = Vec::new();
    r.push(71);
    r.push(76);
    r.push(79);
    r.push(66);
    r.push(65);
    r.push(76);
    r.push(48 + ((t.year / 1000) % 10) as u8);
    r.push(48 + ((t.year / 100) % 10) as u8);
    r.push(48 + ((t.year / 10) % 10) as u8);
    r.push(48 + (t.year % 10) as u8);
    r.push(48 + (t.month / 10) % 10);
    r.push(48 + t.month % 10);
    r.push(48 + (t.day / 10) % 10);
    r.push(48 + t.day % 10);
    assert(r@ =~= round_code_spec(*t));
    r
}

} // verus!
