use vstd::prelude::*;

use vstd::arithmetic::div_mod::lemma_mod_multiples_vanish;

use chrono::{Datelike, Timelike};

verus! {

/// Civil date and time with a fixed UTC offset: the plain-value model of a
/// local timestamp.
#[derive(Clone, Copy, Debug, PartialEq, Eq, Structural)]
pub struct DateParts {
    pub year: i32,
    pub month: u32,
    pub day: u32,
    pub hour: u32,
    pub minute: u32,
    pub second: u32,
    /// Local offset from UTC, in seconds.
    pub offset_seconds: i32,
}

/// Gregorian leap-year rule.
pub open spec fn spec_is_leap_year(y: int) -> bool {
    (y % 4 == 0 && y % 100 != 0) || y % 400 == 0
}

pub open spec fn spec_days_in_year(y: int) -> int {
    if spec_is_leap_year(y) {
        366
    } else {
        365
    }
}

/// Length of a month in the given year.
pub open spec fn spec_days_in_month(y: int, m: int) -> int {
    if m == 2 {
        if spec_is_leap_year(y) {
            29
        } else {
            28
        }
    } else if m == 4 || m == 6 || m == 9 || m == 11 {
        30
    } else {
        31
    }
}

impl DateParts {
    /// A well-formed local timestamp: a valid calendar date within the
    /// year range the calendar library can represent (with a few years of
    /// headroom), a valid time of day, and an offset smaller than a day.
    pub open spec fn wf(self) -> bool {
        &&& -262144 <= self.year <= 262145
        &&& 1 <= self.month <= 12
        &&& 1 <= self.day <= spec_days_in_month(self.year as int, self.month as int)
        &&& self.hour <= 23
        &&& self.minute <= 59
        &&& self.second <= 59
        &&& -86399 <= self.offset_seconds <= 86399
    }
}

/// Decides the Gregorian leap-year rule.
pub fn is_leap_year(y: i32) -> (r: bool)
    requires
        -262144 <= y <= 262145,
    ensures
        r == spec_is_leap_year(y as int),
{
    let shifted: u32 = (y + 280000) as u32;
    proof {
        lemma_mod_multiples_vanish(70000, y as int, 4);
        lemma_mod_multiples_vanish(2800, y as int, 100);
        lemma_mod_multiples_vanish(700, y as int, 400);
    }
    (shifted % 4 == 0 && shifted % 100 != 0) || shifted % 400 == 0
}

/// Number of days of the given month.
pub fn days_in_month(y: i32, m: u32) -> (r: u32)
    requires
        -262144 <= y <= 262145,
        1 <= m <= 12,
    ensures
        r == spec_days_in_month(y as int, m as int),
{
    if m == 2 {
        if is_leap_year(y) {
            29
        } else {
            28
        }
    } else if m == 4 || m == 6 || m == 9 || m == 11 {
        30
    } else {
        31
    }
}

/// Days in the years 1 ..= y-1: the rank of January 1st of year y,
/// counting January 1st of year 1 as day zero.
pub open spec fn spec_days_before_year(y: int) -> int
    decreases y,
{
    if y <= 1 {
        0
    } else {
        spec_days_before_year(y - 1) + spec_days_in_year(y - 1)
    }
}

/// Days in the months 1 ..= m-1 of year y.
pub open spec fn spec_days_before_month(y: int, m: int) -> int
    decreases m,
{
    if m <= 1 {
        0
    } else {
        spec_days_before_month(y, m - 1) + spec_days_in_month(y, m - 1)
    }
}

/// Rank of a calendar day, counting January 1st of year 1 as day zero.
pub open spec fn spec_day_number(y: int, m: int, d: int) -> int {
    spec_days_before_year(y) + spec_days_before_month(y, m) + d - 1
}

/// Seconds of local civil time since midnight of January 1st of year 1.
pub open spec fn spec_total_seconds(p: DateParts) -> int {
    spec_day_number(p.year as int, p.month as int, p.day as int) * 86400 + p.hour * 3600
        + p.minute * 60 + p.second
}

/// The calendar day after the given one.
pub open spec fn spec_next_day(p: DateParts) -> DateParts {
    if p.day < spec_days_in_month(p.year as int, p.month as int) {
        DateParts { day: (p.day + 1) as u32, ..p }
    } else if p.month < 12 {
        DateParts { day: 1, month: (p.month + 1) as u32, ..p }
    } else {
        DateParts { day: 1, month: 1, year: (p.year + 1) as i32, ..p }
    }
}

/// The calendar day `days` days after the given one.
pub open spec fn spec_add_days(p: DateParts, days: nat) -> DateParts
    decreases days,
{
    if days == 0 {
        p
    } else {
        spec_add_days(spec_next_day(p), (days - 1) as nat)
    }
}

/// The timestamp `hours` hours later, by civil-calendar arithmetic; the
/// offset is kept. Meant for hours >= 0.
pub open spec fn spec_add_hours(p: DateParts, hours: int) -> DateParts {
    let total = p.hour + hours;
    spec_add_days(DateParts { hour: (total % 24) as u32, ..p }, (total / 24) as nat)
}

/// Stepping to the next calendar day advances the day rank by exactly one
/// and preserves well-formedness.
proof fn lemma_next_day_number(p: DateParts)
    requires
        p.wf(),
        1 <= p.year <= 262144,
    ensures
        spec_next_day(p).wf(),
        spec_day_number(
            spec_next_day(p).year as int,
            spec_next_day(p).month as int,
            spec_next_day(p).day as int,
        ) == spec_day_number(p.year as int, p.month as int, p.day as int) + 1,
{
    let y = p.year as int;
    let m = p.month as int;
    let d = p.day as int;
    if d < spec_days_in_month(y, m) {
    } else if m < 12 {
        assert(spec_days_before_month(y, m + 1) == spec_days_before_month(y, m)
            + spec_days_in_month(y, m));
    } else {
        reveal_with_fuel(spec_days_before_month, 13);
        assert(spec_days_before_month(y, 12) == 306 + spec_days_in_month(y, 2));
        assert(spec_days_before_year(y + 1) == spec_days_before_year(y) + spec_days_in_year(y));
        assert(spec_days_before_month(y + 1, 1) == 0);
    }
}

/// The calendar day after the given one.
pub fn next_day(p: &DateParts) -> (r: DateParts)
    requires
        p.wf(),
        p.year <= 262144,
    ensures
        r == spec_next_day(*p),
        r.wf(),
{
    let dim = days_in_month(p.year, p.month);
    if p.day < dim {
        DateParts { day: p.day + 1, ..*p }
    } else if p.month < 12 {
        DateParts { day: 1, month: p.month + 1, ..*p }
    } else {
        DateParts { day: 1, month: 1, year: p.year + 1, ..*p }
    }
}

/// The months before any month hold a non-negative day count.
proof fn lemma_days_before_month_nonneg(y: int, m: int)
    requires
        1 <= m,
    ensures
        0 <= spec_days_before_month(y, m),
    decreases m,
{
    if m > 1 {
        lemma_days_before_month_nonneg(y, m - 1);
    }
}

/// The day count before a month grows with the month.
proof fn lemma_days_before_month_mono(y: int, m1: int, m2: int)
    requires
        1 <= m1 <= m2,
    ensures
        spec_days_before_month(y, m1) <= spec_days_before_month(y, m2),
    decreases m2,
{
    if m1 < m2 {
        lemma_days_before_month_mono(y, m1, m2 - 1);
    }
}

/// A well-formed date's rank lies within its year: at least the rank of
/// January 1st, below the rank of the next January 1st.
proof fn lemma_day_number_in_year(y: int, m: int, d: int)
    requires
        1 <= m <= 12,
        1 <= d <= spec_days_in_month(y, m),
    ensures
        spec_days_before_year(y) <= spec_day_number(y, m, d),
        spec_day_number(y, m, d) < spec_days_before_year(y) + spec_days_in_year(y),
{
    lemma_days_before_month_nonneg(y, m);
    assert(spec_days_before_month(y, m + 1) == spec_days_before_month(y, m)
        + spec_days_in_month(y, m));
    lemma_days_before_month_mono(y, m + 1, 13);
    reveal_with_fuel(spec_days_before_month, 14);
    assert(spec_days_before_month(y, 13) == 337 + spec_days_in_month(y, 2));
}

/// Year ranks grow by at least 365 a year.
proof fn lemma_days_before_year_mono(y1: int, y2: int)
    requires
        1 <= y1 <= y2,
    ensures
        spec_days_before_year(y1) + 365 * (y2 - y1) <= spec_days_before_year(y2),
    decreases y2 - y1,
{
    if y1 < y2 {
        lemma_days_before_year_mono(y1, y2 - 1);
    }
}

/// Day walks can be peeled from the back as well as from the front.
proof fn lemma_add_days_snoc(p: DateParts, days: nat)
    ensures
        spec_add_days(p, (days + 1) as nat) == spec_next_day(spec_add_days(p, days)),
    decreases days,
{
    reveal_with_fuel(spec_add_days, 3);
    if days > 0 {
        lemma_add_days_snoc(spec_next_day(p), (days - 1) as nat);
    }
}

/// Advances a timestamp by up to a year's worth of hours with
/// civil-calendar arithmetic; the offset is kept.
pub fn add_hours(p: &DateParts, hours: u32) -> (r: DateParts)
    requires
        p.wf(),
        p.year <= 262142,
        hours <= 8784,
    ensures
        r == spec_add_hours(*p, hours as int),
        r.wf(),
{
    let total = p.hour + hours;
    let mut cur = DateParts { hour: total % 24, ..*p };
    let mut days = total / 24;
    let ghost start = cur;
    let ghost days0: int = total as int / 24;
    while days > 0
        invariant
            p.wf(),
            p.year <= 262142,
            hours <= 8784,
            total == p.hour + hours,
            start == (DateParts { hour: ((total as int) % 24) as u32, ..*p }),
            days0 == total as int / 24,
            0 <= days <= days0,
            days0 <= 366,
            cur == spec_add_days(start, (days0 - days) as nat),
            cur.wf(),
            p.year <= cur.year <= p.year + (days0 - days),
            p.year >= 1 ==> spec_day_number(cur.year as int, cur.month as int, cur.day as int)
                == spec_day_number(start.year as int, start.month as int, start.day as int) + (
            days0 - days),
        decreases days,
    {
        proof {
            if p.year >= 1 {
                lemma_day_number_in_year(
                    start.year as int,
                    start.month as int,
                    start.day as int,
                );
                lemma_day_number_in_year(cur.year as int, cur.month as int, cur.day as int);
                if cur.year >= 262145 {
                    lemma_days_before_year_mono(262145, cur.year as int);
                    lemma_days_before_year_mono(p.year as int + 1, 262145);
                    assert(false);
                }
            }
            assert(cur.year <= 262144);
        }
        let nd = next_day(&cur);
        proof {
            lemma_add_days_snoc(start, (days0 - days) as nat);
            if p.year >= 1 {
                lemma_next_day_number(cur);
            }
        }
        cur = nd;
        days -= 1;
    }
    cur
}

/// Law: advancing a well-formed Common-Era timestamp by `hours` hours adds
/// exactly `hours * 3600` seconds of civil time and keeps the UTC offset.
pub proof fn lemma_add_hours_advances_seconds(p: DateParts, hours: int)
    requires
        p.wf(),
        1 <= p.year <= 262142,
        0 <= hours <= 24,
    ensures
        spec_total_seconds(spec_add_hours(p, hours)) == spec_total_seconds(p) + hours * 3600,
        spec_add_hours(p, hours).offset_seconds == p.offset_seconds,
        spec_add_hours(p, hours).wf(),
        p.year <= spec_add_hours(p, hours).year <= p.year + 1,
{
    let total = p.hour + hours;
    let start = DateParts { hour: (total % 24) as u32, ..p };
    if total < 24 {
        assert(spec_add_days(start, 0) == start);
    } else {
        assert(total / 24 == 1);
        reveal_with_fuel(spec_add_days, 3);
        assert(spec_add_days(start, 1) == spec_next_day(start));
        lemma_next_day_number(start);
    }
}

/// The decimal digit character for d in 0..10 (and '9' beyond).
pub open spec fn digit_char(d: int) -> char {
    if d == 0 {
        '0'
    } else if d == 1 {
        '1'
    } else if d == 2 {
        '2'
    } else if d == 3 {
        '3'
    } else if d == 4 {
        '4'
    } else if d == 5 {
        '5'
    } else if d == 6 {
        '6'
    } else if d == 7 {
        '7'
    } else if d == 8 {
        '8'
    } else {
        '9'
    }
}

/// Two zero-padded decimal digits, for n in 0..100.
pub open spec fn two_digit_chars(n: int) -> Seq<char> {
    seq![digit_char(n / 10), digit_char(n % 10)]
}

/// Four zero-padded decimal digits, for n in 0..10000.
pub open spec fn four_digit_chars(n: int) -> Seq<char> {
    seq![
        digit_char(n / 1000),
        digit_char((n / 100) % 10),
        digit_char((n / 10) % 10),
        digit_char(n % 10),
    ]
}

/// Decimal digits of n >= 0, most significant first, no padding.
pub open spec fn decimal_chars(n: int) -> Seq<char>
    decreases n,
{
    if n < 10 {
        seq![digit_char(n)]
    } else {
        decimal_chars(n / 10).push(digit_char(n % 10))
    }
}

/// The year of a non-negative year number: zero-padded to four digits,
/// more digits where four do not suffice.
pub open spec fn nonneg_year_chars(y: int) -> Seq<char> {
    if y < 10000 {
        four_digit_chars(y)
    } else {
        decimal_chars(y)
    }
}

/// The year field; years before year zero carry a leading '-'.
pub open spec fn year_chars(y: int) -> Seq<char> {
    if y < 0 {
        seq!['-'] + nonneg_year_chars(-y)
    } else {
        nonneg_year_chars(y)
    }
}

/// The UTC offset rendered as +HH:MM or -HH:MM.
pub open spec fn offset_chars(off: int) -> Seq<char> {
    let sign = if off < 0 {
        seq!['-']
    } else {
        seq!['+']
    };
    let mag = if off < 0 {
        -off
    } else {
        off
    };
    sign + two_digit_chars(mag / 3600) + seq![':'] + two_digit_chars((mag % 3600) / 60)
}

/// The full timestamp, YYYY-MM-DDTHH:MM:SS followed by the offset.
pub open spec fn timestamp_chars(p: DateParts) -> Seq<char> {
    year_chars(p.year as int) + seq!['-'] + two_digit_chars(p.month as int) + seq!['-']
        + two_digit_chars(p.day as int) + seq!['T'] + two_digit_chars(p.hour as int) + seq![':']
        + two_digit_chars(p.minute as int) + seq![':'] + two_digit_chars(p.second as int)
        + offset_chars(p.offset_seconds as int)
}

/// Appends one decimal digit character.
fn push_digit(s: &mut String, d: u32)
    requires
        d < 10,
    ensures
        final(s)@ == old(s)@ + seq![digit_char(d as int)],
{
    if d == 0 {
        s.append("0");
        proof {
            reveal_strlit("0");
            assert(s@ =~= old(s)@ + seq![digit_char(d as int)]);
        }
    } else if d == 1 {
        s.append("1");
        proof {
            reveal_strlit("1");
            assert(s@ =~= old(s)@ + seq![digit_char(d as int)]);
        }
    } else if d == 2 {
        s.append("2");
        proof {
            reveal_strlit("2");
            assert(s@ =~= old(s)@ + seq![digit_char(d as int)]);
        }
    } else if d == 3 {
        s.append("3");
        proof {
            reveal_strlit("3");
            assert(s@ =~= old(s)@ + seq![digit_char(d as int)]);
        }
    } else if d == 4 {
        s.append("4");
        proof {
            reveal_strlit("4");
            assert(s@ =~= old(s)@ + seq![digit_char(d as int)]);
        }
    } else if d == 5 {
        s.append("5");
        proof {
            reveal_strlit("5");
            assert(s@ =~= old(s)@ + seq![digit_char(d as int)]);
        }
    } else if d == 6 {
        s.append("6");
        proof {
            reveal_strlit("6");
            assert(s@ =~= old(s)@ + seq![digit_char(d as int)]);
        }
    } else if d == 7 {
        s.append("7");
        proof {
            reveal_strlit("7");
            assert(s@ =~= old(s)@ + seq![digit_char(d as int)]);
        }
    } else if d == 8 {
        s.append("8");
        proof {
            reveal_strlit("8");
            assert(s@ =~= old(s)@ + seq![digit_char(d as int)]);
        }
    } else {
        s.append("9");
        proof {
            reveal_strlit("9");
            assert(s@ =~= old(s)@ + seq![digit_char(d as int)]);
        }
    }
}

/// Appends two zero-padded decimal digits.
fn push_two_digits(s: &mut String, n: u32)
    requires
        n < 100,
    ensures
        final(s)@ == old(s)@ + two_digit_chars(n as int),
{
    push_digit(s, n / 10);
    push_digit(s, n % 10);
    proof {
        assert(s@ =~= old(s)@ + two_digit_chars(n as int));
    }
}

/// Appends four zero-padded decimal digits.
fn push_four_digits(s: &mut String, n: u32)
    requires
        n < 10000,
    ensures
        final(s)@ == old(s)@ + four_digit_chars(n as int),
{
    push_digit(s, n / 1000);
    push_digit(s, (n / 100) % 10);
    push_digit(s, (n / 10) % 10);
    push_digit(s, n % 10);
    proof {
        assert(s@ =~= old(s)@ + four_digit_chars(n as int));
    }
}

/// Appends the decimal digits of n, most significant first.
fn push_decimal(s: &mut String, n: u32)
    ensures
        final(s)@ == old(s)@ + decimal_chars(n as int),
    decreases n,
{
    if n < 10 {
        push_digit(s, n);
    } else {
        push_decimal(s, n / 10);
        push_digit(s, n % 10);
        proof {
            assert(s@ =~= old(s)@ + decimal_chars(n as int));
        }
    }
}

/// Appends the year field.
fn push_year(s: &mut String, y: i32)
    requires
        -262144 <= y <= 262145,
    ensures
        final(s)@ == old(s)@ + year_chars(y as int),
{
    let mag: u32 = if y < 0 {
        s.append("-");
        proof {
            reveal_strlit("-");
        }
        (-y) as u32
    } else {
        y as u32
    };
    if mag < 10000 {
        push_four_digits(s, mag);
    } else {
        push_decimal(s, mag);
    }
    proof {
        assert(s@ =~= old(s)@ + year_chars(y as int));
    }
}

/// Renders a timestamp in the fixed ISO-8601-with-offset form.
pub fn format_timestamp(p: &DateParts) -> (r: String)
    requires
        p.wf(),
    ensures
        r@ == timestamp_chars(*p),
{
    let mut s = String::new();
    push_year(&mut s, p.year);
    s.append("-");
    push_two_digits(&mut s, p.month);
    s.append("-");
    push_two_digits(&mut s, p.day);
    s.append("T");
    push_two_digits(&mut s, p.hour);
    s.append(":");
    push_two_digits(&mut s, p.minute);
    s.append(":");
    push_two_digits(&mut s, p.second);
    let off = p.offset_seconds;
    let mag: u32 = if off < 0 {
        s.append("-");
        (-off) as u32
    } else {
        s.append("+");
        off as u32
    };
    push_two_digits(&mut s, mag / 3600);
    s.append(":");
    push_two_digits(&mut s, (mag % 3600) / 60);
    proof {
        reveal_strlit("-");
        reveal_strlit("T");
        reveal_strlit(":");
        reveal_strlit("+");
        assert(s@ =~= timestamp_chars(*p));
    }
    s
}

/// A decimal digit character.
pub open spec fn is_digit(c: char) -> bool {
    c == '0' || c == '1' || c == '2' || c == '3' || c == '4' || c == '5' || c == '6' || c == '7'
        || c == '8' || c == '9'
}

/// The fixed pattern YYYY-MM-DDTHH:MM:SS followed by a +HH:MM or -HH:MM
/// offset: 25 characters, digits and separators in fixed places.
pub open spec fn is_iso8601_offset_timestamp(s: Seq<char>) -> bool {
    &&& s.len() == 25
    &&& is_digit(s[0])
    &&& is_digit(s[1])
    &&& is_digit(s[2])
    &&& is_digit(s[3])
    &&& s[4] == '-'
    &&& is_digit(s[5])
    &&& is_digit(s[6])
    &&& s[7] == '-'
    &&& is_digit(s[8])
    &&& is_digit(s[9])
    &&& s[10] == 'T'
    &&& is_digit(s[11])
    &&& is_digit(s[12])
    &&& s[13] == ':'
    &&& is_digit(s[14])
    &&& is_digit(s[15])
    &&& s[16] == ':'
    &&& is_digit(s[17])
    &&& is_digit(s[18])
    &&& (s[19] == '+' || s[19] == '-')
    &&& is_digit(s[20])
    &&& is_digit(s[21])
    &&& s[22] == ':'
    &&& is_digit(s[23])
    &&& is_digit(s[24])
}

/// Law: a well-formed timestamp with a four-digit year renders in the
/// fixed ISO-8601-with-offset pattern.
pub proof fn lemma_timestamp_matches_pattern(p: DateParts)
    requires
        p.wf(),
        0 <= p.year <= 9999,
    ensures
        is_iso8601_offset_timestamp(timestamp_chars(p)),
{
    let s = timestamp_chars(p);
    assert forall|d: int| is_digit(#[trigger] digit_char(d)) by {}
    assert(year_chars(p.year as int) == four_digit_chars(p.year as int));
    assert(s.len() == 25);
    assert(is_iso8601_offset_timestamp(s));
}

/// Reads the current local wall-clock time as plain calendar fields.
///
/// Relies on `chrono::Local::now` and the `Datelike`/`Timelike` and
/// `FixedOffset` accessors: the fields form a valid calendar date within
/// chrono's representable years, a valid time of day (a leap second is
/// carried in the nanosecond field, so seconds stay at most 59), and the
/// local UTC offset in seconds, smaller than a day in magnitude. Which
/// instant comes back depends on the clock, so nothing more is promised.
#[verifier::external_body]
pub fn local_now_parts() -> (r: DateParts)
    ensures
        r.wf(),
        -262143 <= r.year <= 262142,
{
    let now = chrono::Local::now();
    DateParts {
        year: now.year(),
        month: now.month(),
        day: now.day(),
        hour: now.hour(),
        minute: now.minute(),
        second: now.second(),
        offset_seconds: now.offset().local_minus_utc(),
    }
}

} // verus!
