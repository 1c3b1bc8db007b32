//! The lengths of time that one candle can cover.

use crate::keymap::Key;
use crate::text;
use crate::time;
use crate::time::Stamp;
use vstd::arithmetic::div_mod::*;
use vstd::prelude::*;

verus! {

/// How much time one candle covers.
#[derive(Debug, Clone, Copy, PartialEq, Eq, Structural, Hash)]
pub enum Intv {
    Min1,
    Min3,
    Min5,
    Min15,
    Min30,
    Hour1,
    Hour2,
    Hour4,
    Hour6,
    Hour8,
    Hour12,
    Day1,
    Day3,
    Week1,
    Month1,
}

/// The number of intervals.
pub const INTV_COUNT: usize = 15;

/// The leap years among all years.
pub open spec fn leap_year(year: int) -> bool {
    year % 4 == 0 && (year % 100 != 0 || year % 400 == 0)
}

/// How many days the `month` of a year has.
pub open spec fn days_in_month(month: u32, year: int) -> int {
    if month == 2 {
        if leap_year(year) {
            29
        } else {
            28
        }
    } else if month == 4 || month == 6 || month == 9 || month == 11 {
        30
    } else {
        31
    }
}

/// The intervals from the shortest to the longest.
pub open spec fn intervals() -> Seq<Intv> {
    seq![
        Intv::Min1,
        Intv::Min3,
        Intv::Min5,
        Intv::Min15,
        Intv::Min30,
        Intv::Hour1,
        Intv::Hour2,
        Intv::Hour4,
        Intv::Hour6,
        Intv::Hour8,
        Intv::Hour12,
        Intv::Day1,
        Intv::Day3,
        Intv::Week1,
        Intv::Month1,
    ]
}

impl Intv {
    /// The name that tables and menus use.
    pub open spec fn name(self) -> Seq<char> {
        match self {
            Intv::Min1 => "1min"@,
            Intv::Min3 => "3min"@,
            Intv::Min5 => "5min"@,
            Intv::Min15 => "15min"@,
            Intv::Min30 => "30min"@,
            Intv::Hour1 => "1hour"@,
            Intv::Hour2 => "2hour"@,
            Intv::Hour4 => "4hour"@,
            Intv::Hour6 => "6hour"@,
            Intv::Hour8 => "8hour"@,
            Intv::Hour12 => "12hour"@,
            Intv::Day1 => "1day"@,
            Intv::Day3 => "3day"@,
            Intv::Week1 => "1week"@,
            Intv::Month1 => "1month"@,
        }
    }

    /// The name that the exchange uses.
    pub open spec fn bin_name(self) -> Seq<char> {
        match self {
            Intv::Min1 => "1m"@,
            Intv::Min3 => "3m"@,
            Intv::Min5 => "5m"@,
            Intv::Min15 => "15m"@,
            Intv::Min30 => "30m"@,
            Intv::Hour1 => "1h"@,
            Intv::Hour2 => "2h"@,
            Intv::Hour4 => "4h"@,
            Intv::Hour6 => "6h"@,
            Intv::Hour8 => "8h"@,
            Intv::Hour12 => "12h"@,
            Intv::Day1 => "1d"@,
            Intv::Day3 => "3d"@,
            Intv::Week1 => "1w"@,
            Intv::Month1 => "1M"@,
        }
    }

    /// How many minutes the interval lasts, a month being taken as 30 days.
    pub open spec fn minutes(self) -> int {
        match self {
            Intv::Min1 => 1,
            Intv::Min3 => 3,
            Intv::Min5 => 5,
            Intv::Min15 => 15,
            Intv::Min30 => 30,
            Intv::Hour1 => 60,
            Intv::Hour2 => 120,
            Intv::Hour4 => 240,
            Intv::Hour6 => 360,
            Intv::Hour8 => 480,
            Intv::Hour12 => 720,
            Intv::Day1 => 1440,
            Intv::Day3 => 4320,
            Intv::Week1 => 10080,
            Intv::Month1 => 43200,
        }
    }

    /// The place of the interval in [`intervals`].
    pub open spec fn place(self) -> int {
        match self {
            Intv::Min1 => 0,
            Intv::Min3 => 1,
            Intv::Min5 => 2,
            Intv::Min15 => 3,
            Intv::Min30 => 4,
            Intv::Hour1 => 5,
            Intv::Hour2 => 6,
            Intv::Hour4 => 7,
            Intv::Hour6 => 8,
            Intv::Hour8 => 9,
            Intv::Hour12 => 10,
            Intv::Day1 => 11,
            Intv::Day3 => 12,
            Intv::Week1 => 13,
            Intv::Month1 => 14,
        }
    }

    /// Some interval has this name.
    pub open spec fn is_name(s: Seq<char>) -> bool {
        exists|i: Intv| #[trigger] i.name() == s
    }

    /// Some interval has this name at the exchange.
    pub open spec fn is_bin_name(s: Seq<char>) -> bool {
        exists|i: Intv| #[trigger] i.bin_name() == s
    }

    /// No two intervals have the same name.
    pub proof fn names_differ(a: Intv, b: Intv)
        requires
            a.name() == b.name(),
        ensures
            a == b,
    {
        reveal_strlit("1min");
        reveal_strlit("3min");
        reveal_strlit("5min");
        reveal_strlit("15min");
        reveal_strlit("30min");
        reveal_strlit("1hour");
        reveal_strlit("2hour");
        reveal_strlit("4hour");
        reveal_strlit("6hour");
        reveal_strlit("8hour");
        reveal_strlit("12hour");
        reveal_strlit("1day");
        reveal_strlit("3day");
        reveal_strlit("1week");
        reveal_strlit("1month");
        let s = a.name();
        let t = b.name();
        assert(s.len() == t.len());
        assert(s[0] == t[0] && s[1] == t[1] && s[2] == t[2]);
    }

    /// No two intervals have the same name at the exchange.
    pub proof fn bin_names_differ(a: Intv, b: Intv)
        requires
            a.bin_name() == b.bin_name(),
        ensures
            a == b,
    {
        reveal_strlit("1m");
        reveal_strlit("3m");
        reveal_strlit("5m");
        reveal_strlit("15m");
        reveal_strlit("30m");
        reveal_strlit("1h");
        reveal_strlit("2h");
        reveal_strlit("4h");
        reveal_strlit("6h");
        reveal_strlit("8h");
        reveal_strlit("12h");
        reveal_strlit("1d");
        reveal_strlit("3d");
        reveal_strlit("1w");
        reveal_strlit("1M");
        let s = a.bin_name();
        let t = b.bin_name();
        assert(s.len() == t.len());
        assert(s[0] == t[0] && s[1] == t[1]);
        assert(s.len() > 2 ==> s[2] == t[2]);
    }

    /// [`intervals`] holds every interval, each once.
    pub proof fn intervals_are_all(i: Intv)
        ensures
            intervals().len() == INTV_COUNT,
            0 <= i.place() < INTV_COUNT,
            intervals()[i.place()] == i,
            forall|k: int| 0 <= k < INTV_COUNT ==> #[trigger] intervals()[k].place() == k,
    {
    }

    /// Every interval, from the shortest to the longest.
    pub fn iter() -> (r: Vec<Intv>)
        ensures
            r@ == intervals(),
    {
        let r = vec![
            Intv::Min1,
            Intv::Min3,
            Intv::Min5,
            Intv::Min15,
            Intv::Min30,
            Intv::Hour1,
            Intv::Hour2,
            Intv::Hour4,
            Intv::Hour6,
            Intv::Hour8,
            Intv::Hour12,
            Intv::Day1,
            Intv::Day3,
            Intv::Week1,
            Intv::Month1,
        ];
        assert(r@ =~= intervals());
        r
    }

    /// The interval of this name, if there is one.
    pub fn find(input: &str) -> (r: Option<Intv>)
        ensures
            match r {
                Some(i) => i.name() == input@,
                None => !Intv::is_name(input@),
            },
    {
        if text::same(input, "1min") {
            Some(Intv::Min1)
        } else if text::same(input, "3min") {
            Some(Intv::Min3)
        } else if text::same(input, "5min") {
            Some(Intv::Min5)
        } else if text::same(input, "15min") {
            Some(Intv::Min15)
        } else if text::same(input, "30min") {
            Some(Intv::Min30)
        } else if text::same(input, "1hour") {
            Some(Intv::Hour1)
        } else if text::same(input, "2hour") {
            Some(Intv::Hour2)
        } else if text::same(input, "4hour") {
            Some(Intv::Hour4)
        } else if text::same(input, "6hour") {
            Some(Intv::Hour6)
        } else if text::same(input, "8hour") {
            Some(Intv::Hour8)
        } else if text::same(input, "12hour") {
            Some(Intv::Hour12)
        } else if text::same(input, "1day") {
            Some(Intv::Day1)
        } else if text::same(input, "3day") {
            Some(Intv::Day3)
        } else if text::same(input, "1week") {
            Some(Intv::Week1)
        } else if text::same(input, "1month") {
            Some(Intv::Month1)
        } else {
            None
        }
    }

    /// The interval that has this name at the exchange, if there is one.
    pub fn find_bin(input: &str) -> (r: Option<Intv>)
        ensures
            match r {
                Some(i) => i.bin_name() == input@,
                None => !Intv::is_bin_name(input@),
            },
    {
        if text::same(input, "1m") {
            Some(Intv::Min1)
        } else if text::same(input, "3m") {
            Some(Intv::Min3)
        } else if text::same(input, "5m") {
            Some(Intv::Min5)
        } else if text::same(input, "15m") {
            Some(Intv::Min15)
        } else if text::same(input, "30m") {
            Some(Intv::Min30)
        } else if text::same(input, "1h") {
            Some(Intv::Hour1)
        } else if text::same(input, "2h") {
            Some(Intv::Hour2)
        } else if text::same(input, "4h") {
            Some(Intv::Hour4)
        } else if text::same(input, "6h") {
            Some(Intv::Hour6)
        } else if text::same(input, "8h") {
            Some(Intv::Hour8)
        } else if text::same(input, "12h") {
            Some(Intv::Hour12)
        } else if text::same(input, "1d") {
            Some(Intv::Day1)
        } else if text::same(input, "3d") {
            Some(Intv::Day3)
        } else if text::same(input, "1w") {
            Some(Intv::Week1)
        } else if text::same(input, "1M") {
            Some(Intv::Month1)
        } else {
            None
        }
    }

    /// The interval of this name.
    pub fn from_str(input: &str) -> (r: Intv)
        requires
            Intv::is_name(input@),
        ensures
            r.name() == input@,
    {
        match Intv::find(input) {
            Some(i) => i,
            None => Intv::Min1,
        }
    }

    /// The interval that has this name at the exchange.
    pub fn from_bin_str(input: &str) -> (r: Intv)
        requires
            Intv::is_bin_name(input@),
        ensures
            r.bin_name() == input@,
    {
        match Intv::find_bin(input) {
            Some(i) => i,
            None => Intv::Min1,
        }
    }

    /// The name that tables and menus use.
    pub fn to_str(&self) -> (r: &'static str)
        ensures
            r@ == self.name(),
    {
        match self {
            Intv::Min1 => "1min",
            Intv::Min3 => "3min",
            Intv::Min5 => "5min",
            Intv::Min15 => "15min",
            Intv::Min30 => "30min",
            Intv::Hour1 => "1hour",
            Intv::Hour2 => "2hour",
            Intv::Hour4 => "4hour",
            Intv::Hour6 => "6hour",
            Intv::Hour8 => "8hour",
            Intv::Hour12 => "12hour",
            Intv::Day1 => "1day",
            Intv::Day3 => "3day",
            Intv::Week1 => "1week",
            Intv::Month1 => "1month",
        }
    }

    /// The name that the exchange uses.
    pub fn to_bin_str(&self) -> (r: &'static str)
        ensures
            r@ == self.bin_name(),
    {
        match self {
            Intv::Min1 => "1m",
            Intv::Min3 => "3m",
            Intv::Min5 => "5m",
            Intv::Min15 => "15m",
            Intv::Min30 => "30m",
            Intv::Hour1 => "1h",
            Intv::Hour2 => "2h",
            Intv::Hour4 => "4h",
            Intv::Hour6 => "6h",
            Intv::Hour8 => "8h",
            Intv::Hour12 => "12h",
            Intv::Day1 => "1d",
            Intv::Day3 => "3d",
            Intv::Week1 => "1w",
            Intv::Month1 => "1M",
        }
    }

    /// How many minutes the interval lasts.
    pub fn to_min(&self) -> (r: u64)
        ensures
            r == self.minutes(),
            1 <= r <= 43_200,
    {
        match self {
            Intv::Min1 => 1,
            Intv::Min3 => 3,
            Intv::Min5 => 5,
            Intv::Min15 => 15,
            Intv::Min30 => 30,
            Intv::Hour1 => 60,
            Intv::Hour2 => 120,
            Intv::Hour4 => 240,
            Intv::Hour6 => 360,
            Intv::Hour8 => 480,
            Intv::Hour12 => 720,
            Intv::Day1 => 1440,
            Intv::Day3 => 4320,
            Intv::Week1 => 10080,
            Intv::Month1 => 43200,
        }
    }

    /// How many seconds the interval lasts.
    pub fn to_sec(&self) -> (r: i64)
        ensures
            r == self.minutes() * 60,
            60 <= r <= 2_592_000,
    {
        self.to_min() as i64 * 60
    }

    /// How many milliseconds the interval lasts.
    pub fn to_ms(&self) -> (r: i64)
        ensures
            r == self.minutes() * 60_000,
            60_000 <= r <= 2_592_000_000,
    {
        self.to_sec() * 1000
    }

    /// How many milliseconds the month of `from_reference` lasts.
    pub fn month_to_timedelta(&self, from_reference: Stamp) -> (r: i64)
        requires
            from_reference.wf(),
        ensures
            r == days_in_month(
                time::month_of(from_reference.ms),
                time::year_of(from_reference.ms) as int,
            ) * 86_400_000,
            28 * 86_400_000 <= r <= 31 * 86_400_000,
    {
        let month = time::calendar_month(from_reference);
        let year = time::calendar_year(from_reference);
        month_length(month, year)
    }

    /// How many milliseconds the interval lasts, a month being the one that
    /// `now` falls into.
    pub fn timedelta_at(&self, now: Stamp) -> (r: i64)
        requires
            now.wf(),
        ensures
            r == (if *self == Intv::Month1 {
                days_in_month(time::month_of(now.ms), time::year_of(now.ms) as int) * 86_400_000
            } else {
                self.minutes() * 60_000
            }),
    {
        match self {
            Intv::Month1 => self.month_to_timedelta(now),
            _ => self.to_ms(),
        }
    }

    /// How many milliseconds the interval lasts, a month being the present
    /// one. Which month that is, the clock decides.
    pub fn to_timedelta(&self) -> (r: i64)
        ensures
            *self != Intv::Month1 ==> r == self.minutes() * 60_000,
            *self == Intv::Month1 ==> r == 28 * 86_400_000 || r == 29 * 86_400_000 || r == 30
                * 86_400_000 || r == 31 * 86_400_000,
    {
        let now = time::present();
        self.timedelta_at(now)
    }
}

/// How many milliseconds the `month` of `year` lasts.
pub fn month_length(month: u32, year: i32) -> (r: i64)
    requires
        1 <= month <= 12,
    ensures
        r == days_in_month(month, year as int) * 86_400_000,
        28 * 86_400_000 <= r <= 31 * 86_400_000,
{
    let days: i64 = match month {
        4 | 6 | 9 | 11 => 30,
        2 => if is_leap_year(year) {
            29
        } else {
            28
        },
        _ => 31,
    };
    days * 86_400_000
}

/// Whether `year` is a leap year.
pub fn is_leap_year(year: i32) -> (r: bool)
    ensures
        r == leap_year(year as int),
{
    divisible(year, 4) && (!divisible(year, 100) || divisible(year, 400))
}

/// Whether `d` divides `n` without a remainder.
fn divisible(n: i32, d: i32) -> (r: bool)
    requires
        0 < d <= 400,
    ensures
        r == (n as int % d as int == 0),
{
    let wide: i64 = if n < 0 {
        -(n as i64)
    } else {
        n as i64
    };
    proof {
        let (x, m) = (n as int, d as int);
        lemma_fundamental_div_mod(x, m);
        lemma_fundamental_div_mod(-x, m);
        lemma_mod_multiples_basic(-(x / m), m);
        lemma_mod_multiples_basic(-((-x) / m), m);
        assert(m * (x / m) == -(-(x / m) * m)) by (nonlinear_arith);
        assert(m * ((-x) / m) == -(-((-x) / m) * m)) by (nonlinear_arith);
    }
    wide % (d as i64) == 0
}

impl Default for Intv {
    fn default() -> (r: Intv)
        ensures
            r == Intv::Min1,
    {
        Intv::Min1
    }
}

impl Key for Intv {
    type Model = Intv;

    open spec fn model(&self) -> Intv {
        *self
    }

    fn matches(&self, other: &Self) -> (r: bool) {
        *self == *other
    }

    fn again(&self) -> (r: Self) {
        *self
    }
}

/// How long the intervals last, each told by another one.
pub proof fn lengths_follow_from_each_other()
    ensures
        Intv::Min1.minutes() == 1,
        Intv::Min3.minutes() == 3 * Intv::Min1.minutes(),
        Intv::Min5.minutes() == 5 * Intv::Min1.minutes(),
        Intv::Min15.minutes() == 3 * Intv::Min5.minutes(),
        Intv::Min30.minutes() == 2 * Intv::Min15.minutes(),
        Intv::Hour1.minutes() == 2 * Intv::Min30.minutes(),
        Intv::Hour2.minutes() == 2 * Intv::Hour1.minutes(),
        Intv::Hour4.minutes() == 2 * Intv::Hour2.minutes(),
        Intv::Hour6.minutes() == 3 * Intv::Hour2.minutes(),
        Intv::Hour8.minutes() == 2 * Intv::Hour4.minutes(),
        Intv::Hour12.minutes() == 2 * Intv::Hour6.minutes(),
        Intv::Day1.minutes() == 2 * Intv::Hour12.minutes(),
        Intv::Day3.minutes() == 3 * Intv::Day1.minutes(),
        Intv::Week1.minutes() == 7 * Intv::Day1.minutes(),
        Intv::Month1.minutes() == 30 * Intv::Day1.minutes(),
{
}

/// The intervals stand from the shortest to the longest.
pub proof fn longer_intervals_stand_behind(a: Intv, b: Intv)
    ensures
        a.place() < b.place() <==> a.minutes() < b.minutes(),
{
}

/// The interval lasts `n` units of `unit` minutes; the unit is written `letter` at the
/// exchange and `word` elsewhere.
pub open spec fn tells(i: Intv, n: nat, unit: int, letter: char, word: Seq<char>) -> bool {
    &&& i.minutes() == n * unit
    &&& i.bin_name() == text::decimal(n).push(letter)
    &&& i.name() == text::decimal(n) + word
}

/// The names of an interval tell how long it lasts: a number, and the unit that it counts.
pub proof fn names_tell_the_length(i: Intv)
    ensures
        (exists|n: nat| #[trigger] tells(i, n, 1, 'm', "min"@)) || (exists|n: nat| #[trigger]
            tells(i, n, 60, 'h', "hour"@)) || (exists|n: nat| #[trigger]
            tells(i, n, 1440, 'd', "day"@)) || (exists|n: nat| #[trigger]
            tells(i, n, 10_080, 'w', "week"@)) || (exists|n: nat| #[trigger]
            tells(i, n, 43_200, 'M', "month"@)),
{
    reveal_strlit("1min");
    reveal_strlit("3min");
    reveal_strlit("5min");
    reveal_strlit("15min");
    reveal_strlit("30min");
    reveal_strlit("1hour");
    reveal_strlit("2hour");
    reveal_strlit("4hour");
    reveal_strlit("6hour");
    reveal_strlit("8hour");
    reveal_strlit("12hour");
    reveal_strlit("1day");
    reveal_strlit("3day");
    reveal_strlit("1week");
    reveal_strlit("1month");
    reveal_strlit("1m");
    reveal_strlit("3m");
    reveal_strlit("5m");
    reveal_strlit("15m");
    reveal_strlit("30m");
    reveal_strlit("1h");
    reveal_strlit("2h");
    reveal_strlit("4h");
    reveal_strlit("6h");
    reveal_strlit("8h");
    reveal_strlit("12h");
    reveal_strlit("1d");
    reveal_strlit("3d");
    reveal_strlit("1w");
    reveal_strlit("1M");
    reveal_strlit("min");
    reveal_strlit("hour");
    reveal_strlit("day");
    reveal_strlit("week");
    reveal_strlit("month");
    let (n, unit, letter, word) = match i {
        Intv::Min1 => (1nat, 1int, 'm', "min"@),
        Intv::Min3 => (3nat, 1int, 'm', "min"@),
        Intv::Min5 => (5nat, 1int, 'm', "min"@),
        Intv::Min15 => (15nat, 1int, 'm', "min"@),
        Intv::Min30 => (30nat, 1int, 'm', "min"@),
        Intv::Hour1 => (1nat, 60int, 'h', "hour"@),
        Intv::Hour2 => (2nat, 60int, 'h', "hour"@),
        Intv::Hour4 => (4nat, 60int, 'h', "hour"@),
        Intv::Hour6 => (6nat, 60int, 'h', "hour"@),
        Intv::Hour8 => (8nat, 60int, 'h', "hour"@),
        Intv::Hour12 => (12nat, 60int, 'h', "hour"@),
        Intv::Day1 => (1nat, 1440int, 'd', "day"@),
        Intv::Day3 => (3nat, 1440int, 'd', "day"@),
        Intv::Week1 => (1nat, 10_080int, 'w', "week"@),
        Intv::Month1 => (1nat, 43_200int, 'M', "month"@),
    };
    reveal_with_fuel(text::decimal, 3);
    assert(i.bin_name() =~= text::decimal(n).push(letter));
    assert(i.name() =~= text::decimal(n) + word);
    assert(tells(i, n, unit, letter, word));
}

/// A year has a day more than 365 exactly where it is a leap year, and that day is the 29th
/// of February.
pub proof fn months_make_a_year(year: int)
    ensures
        days_in_month(1, year) + days_in_month(2, year) + days_in_month(3, year) + days_in_month(
            4,
            year,
        ) + days_in_month(5, year) + days_in_month(6, year) + days_in_month(7, year)
            + days_in_month(8, year) + days_in_month(9, year) + days_in_month(10, year)
            + days_in_month(11, year) + days_in_month(12, year) == (if leap_year(year) {
            366int
        } else {
            365
        }),
        days_in_month(2, year) == 29 <==> leap_year(year),
        days_in_month(2, year) == 28 <==> !leap_year(year),
{
}

/// April, June, September and November have thirty days, and the months beside February
/// else thirty-one.
pub proof fn four_months_have_thirty_days(month: u32, year: int)
    requires
        1 <= month <= 12,
        month != 2,
    ensures
        days_in_month(month, year) == 30 || days_in_month(month, year) == 31,
        days_in_month(month, year) == 30 <==> month == 4 || month == 6 || month == 9 || month == 11,
{
}

/// Every fourth year is a leap year, except those that divide by a hundred but not by four
/// hundred.
pub proof fn leap_years_come_every_fourth(year: int)
    ensures
        leap_year(4 * year) <==> year % 25 != 0 || year % 100 == 0,
        !leap_year(4 * year + 1) && !leap_year(4 * year + 2) && !leap_year(4 * year + 3),
{
}

/// A text is a name exactly where one of the fifteen intervals has it.
pub proof fn fifteen_texts_are_names(s: Seq<char>)
    ensures
        Intv::is_name(s) <==> exists|k: int| 0 <= k < 15 && (#[trigger] intervals()[k]).name() == s,
        Intv::is_bin_name(s) <==> exists|k: int|
            0 <= k < 15 && (#[trigger] intervals()[k]).bin_name() == s,
{
    if Intv::is_name(s) {
        let i = choose|i: Intv| #[trigger] i.name() == s;
        assert(intervals()[i.place()] == i);
    }
    if Intv::is_bin_name(s) {
        let i = choose|i: Intv| #[trigger] i.bin_name() == s;
        assert(intervals()[i.place()] == i);
    }
}

} // verus!
