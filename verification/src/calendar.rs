//! Calendar dates of the proleptic Gregorian calendar.

use vstd::arithmetic::div_mod::lemma_mod_multiples_vanish;
use vstd::prelude::*;

verus! {

/// Earliest year a date can lie in: the first year of chrono's dates.
pub const MIN_YEAR: i32 = -262143;

/// Latest year a date can lie in: the last year of chrono's dates.
pub const MAX_YEAR: i32 = 262142;

/// Whether `year` has a 29th of February.
pub open spec fn is_leap_year(year: int) -> bool {
    year % 4 == 0 && (year % 100 != 0 || year % 400 == 0)
}

/// Number of days of `month` in `year`, for a month between 1 and 12.
pub open spec fn days_in_month(year: int, month: int) -> int {
    if month == 2 {
        if is_leap_year(year) {
            29
        } else {
            28
        }
    } else if month == 4 || month == 6 || month == 9 || month == 11 {
        30
    } else {
        31
    }
}

/// Whether the three numbers name a day that exists.
pub open spec fn is_calendar_date(year: int, month: int, day: int) -> bool {
    &&& MIN_YEAR <= year <= MAX_YEAR
    &&& 1 <= month <= 12
    &&& 1 <= day <= days_in_month(year, month)
}

/// Mathematical value of a [`CalendarDate`].
pub struct DateView {
    pub year: int,
    pub month: int,
    pub day: int,
}

/// The character of the decimal digit `n`, for `n` between 0 and 9.
pub open spec fn digit(n: int) -> char {
    ('0' as int + n) as char
}

/// A number below 100 in two decimal digits, with a leading zero where needed.
pub open spec fn two_digits(n: int) -> Seq<char> {
    seq![digit(n / 10), digit(n % 10)]
}

/// The decimal digits of `n` without leading zeros.
pub open spec fn decimal(n: nat) -> Seq<char>
    decreases n,
{
    if n < 10 {
        seq![digit(n as int)]
    } else {
        decimal(n / 10).push(digit((n % 10) as int))
    }
}

/// The decimal digits of `n`, filled up with zeros on the left to four.
pub open spec fn four_digits(n: nat) -> Seq<char> {
    if n < 10000 {
        two_digits((n / 100) as int) + two_digits((n % 100) as int)
    } else {
        decimal(n)
    }
}

/// A year in at least four digits.  Years before 0 and after 9999 carry a
/// sign.
pub open spec fn year_text(year: int) -> Seq<char> {
    if year < 0 {
        seq!['-'] + four_digits((-year) as nat)
    } else if year < 10000 {
        four_digits(year as nat)
    } else {
        seq!['+'] + four_digits(year as nat)
    }
}

impl DateView {
    /// Whether the date exists.
    pub open spec fn valid(self) -> bool {
        is_calendar_date(self.year, self.month, self.day)
    }

    /// The date written as day, month and year, `DD-MM-YYYY`.
    pub open spec fn stamp(self) -> Seq<char> {
        two_digits(self.day) + seq!['-'] + two_digits(self.month) + seq!['-'] + year_text(
            self.year,
        )
    }
}

/// A day of the calendar.  Every value is a day that exists.
#[derive(Clone, Copy, Debug, PartialEq, Eq)]
pub struct CalendarDate {
    year: i32,
    month: u32,
    day: u32,
}

impl View for CalendarDate {
    type V = DateView;

    closed spec fn view(&self) -> DateView {
        DateView { year: self.year as int, month: self.month as int, day: self.day as int }
    }
}

/// Decides whether `year` is a leap year.
pub fn leap_year(year: i32) -> (leap: bool)
    ensures
        leap == is_leap_year(year as int),
{
    // Shifted by a multiple of 400 years, which keeps the leap years in place.
    let shifted: i64 = year as i64 + 4_000_000_000;
    proof {
        lemma_mod_multiples_vanish(1_000_000_000, year as int, 4);
        lemma_mod_multiples_vanish(40_000_000, year as int, 100);
        lemma_mod_multiples_vanish(10_000_000, year as int, 400);
        assert(shifted == 4 * 1_000_000_000 + year);
        assert(shifted == 100 * 40_000_000 + year);
        assert(shifted == 400 * 10_000_000 + year);
    }
    shifted % 4 == 0 && (shifted % 100 != 0 || shifted % 400 == 0)
}

/// Length of a month in days.
fn month_length(year: i32, month: u32) -> (days: u32)
    requires
        1 <= month <= 12,
    ensures
        days == days_in_month(year as int, month as int),
{
    if month == 2 {
        if leap_year(year) {
            29
        } else {
            28
        }
    } else if month == 4 || month == 6 || month == 9 || month == 11 {
        30
    } else {
        31
    }
}

/// Reads the clock through chrono: `Local::now` gives the moment, `date_naive`
/// its date in the local time zone, and the `Datelike` getters the three
/// numbers.  Nothing is known of the result but that chrono's dates are days
/// that exist between its first and last year.
#[verifier::external_body]
fn local_date() -> (ymd: (i32, u32, u32))
    ensures
        is_calendar_date(ymd.0 as int, ymd.1 as int, ymd.2 as int),
{
    let date = chrono::Local::now().date_naive();
    (chrono::Datelike::year(&date), chrono::Datelike::month(&date), chrono::Datelike::day(&date))
}

/// Writes a date with chrono's `NaiveDate::format` and the pattern
/// `%d-%m-%Y`: day and month in two digits each, the year in four, hyphens
/// between them.  For a year before 0 or after 9999 chrono puts a sign in
/// front of the year and lets it grow beyond four digits.
#[verifier::external_body]
fn format_day_month_year(year: i32, month: u32, day: u32) -> (text: String)
    requires
        is_calendar_date(year as int, month as int, day as int),
    ensures
        text@ == (DateView { year: year as int, month: month as int, day: day as int }).stamp(),
{
    chrono::NaiveDate::from_ymd_opt(year, month, day).unwrap_or_default().format(
        "%d-%m-%Y",
    ).to_string()
}

impl CalendarDate {
    /// What every value of the type keeps: it is a day that exists.
    #[verifier::type_invariant]
    pub open spec fn exists_in_calendar(self) -> bool {
        self@.valid()
    }

    /// The date with the given year, month and day, if there is such a day.
    pub fn new(year: i32, month: u32, day: u32) -> (date: Option<CalendarDate>)
        ensures
            date is Some <==> is_calendar_date(year as int, month as int, day as int),
            date matches Some(d) ==> d@ == (DateView {
                year: year as int,
                month: month as int,
                day: day as int,
            }),
    {
        if year < MIN_YEAR || year > MAX_YEAR || month < 1 || month > 12 || day < 1 {
            return None;
        }
        if day > month_length(year, month) {
            return None;
        }
        Some(CalendarDate { year, month, day })
    }

    /// The local calendar date at the moment of the call.
    pub fn today() -> (date: CalendarDate)
        ensures
            date@.valid(),
    {
        let (year, month, day) = local_date();
        CalendarDate { year, month, day }
    }

    /// The date written as `DD-MM-YYYY`.
    pub fn stamp(&self) -> (text: String)
        ensures
            text@ == self@.stamp(),
    {
        proof {
            use_type_invariant(self);
        }
        format_day_month_year(self.year, self.month, self.day)
    }

    /// The year, 1 BCE being year 0.
    pub fn year(&self) -> (year: i32)
        ensures
            year == self@.year,
    {
        self.year
    }

    /// The month, from 1 to 12.
    pub fn month(&self) -> (month: u32)
        ensures
            month == self@.month,
    {
        self.month
    }

    /// The day of the month, from 1.
    pub fn day(&self) -> (day: u32)
        ensures
            day == self@.day,
    {
        self.day
    }
}

/// Two digits are written alike only where they are the same digit.
proof fn lemma_digit_injective(a: int, b: int)
    requires
        0 <= a <= 9,
        0 <= b <= 9,
        digit(a) == digit(b),
    ensures
        a == b,
{
}

/// Two numbers below 100 are written alike only where they are equal.
proof fn lemma_two_digits_injective(a: int, b: int)
    requires
        0 <= a < 100,
        0 <= b < 100,
        two_digits(a) == two_digits(b),
    ensures
        a == b,
{
    lemma_digit_injective(a / 10, b / 10);
    lemma_digit_injective(a % 10, b % 10);
}

/// A number is written without leading zeros in at least one digit, and in
/// more than one from 10 on.
proof fn lemma_decimal_len(n: nat)
    ensures
        decimal(n).len() >= 1,
        n >= 10 ==> decimal(n).len() >= 2,
        n >= 10000 ==> decimal(n).len() >= 5,
    decreases n,
{
    if n >= 10 {
        lemma_decimal_len(n / 10);
        if n >= 10000 {
            lemma_decimal_len(n / 100);
            lemma_decimal_len(n / 1000);
            lemma_decimal_len(n / 10000);
            assert(n / 1000 / 10 == n / 10000);
        }
    }
}

/// Two numbers have the same decimal digits only where they are equal.
proof fn lemma_decimal_injective(a: nat, b: nat)
    requires
        decimal(a) == decimal(b),
    ensures
        a == b,
    decreases a,
{
    lemma_decimal_len(a);
    lemma_decimal_len(b);
    if a < 10 {
        assert(decimal(a)[0] == digit(a as int));
        assert(decimal(b)[0] == digit(b as int));
        lemma_digit_injective(a as int, b as int);
    } else {
        let (front_a, front_b) = (decimal(a / 10), decimal(b / 10));
        let (last_a, last_b) = (digit((a % 10) as int), digit((b % 10) as int));
        assert(front_a.push(last_a).drop_last() == front_a);
        assert(front_b.push(last_b).drop_last() == front_b);
        assert(front_a.push(last_a).last() == last_a);
        assert(front_b.push(last_b).last() == last_b);
        lemma_digit_injective((a % 10) as int, (b % 10) as int);
        lemma_decimal_injective(a / 10, b / 10);
    }
}

/// Two numbers are written alike in four or more digits only where they are
/// equal.
proof fn lemma_four_digits_injective(a: nat, b: nat)
    requires
        four_digits(a) == four_digits(b),
    ensures
        a == b,
{
    lemma_decimal_len(a);
    lemma_decimal_len(b);
    if a < 10000 {
        let (high_a, low_a) = (two_digits((a / 100) as int), two_digits((a % 100) as int));
        let (high_b, low_b) = (two_digits((b / 100) as int), two_digits((b % 100) as int));
        assert(high_a == (high_a + low_a).subrange(0, 2));
        assert(high_b == (high_b + low_b).subrange(0, 2));
        assert(low_a == (high_a + low_a).subrange(2, 4));
        assert(low_b == (high_b + low_b).subrange(2, 4));
        lemma_two_digits_injective((a / 100) as int, (b / 100) as int);
        lemma_two_digits_injective((a % 100) as int, (b % 100) as int);
    } else {
        lemma_decimal_injective(a, b);
    }
}

/// The first character of a number written in four or more digits is a digit.
proof fn lemma_four_digits_first(n: nat)
    ensures
        four_digits(n).len() >= 4,
        '0' <= four_digits(n)[0] <= '9',
{
    if n >= 10000 {
        lemma_decimal_first(n);
        lemma_decimal_len(n);
    }
}

/// The first character of a number written without leading zeros is a digit.
proof fn lemma_decimal_first(n: nat)
    ensures
        '0' <= decimal(n)[0] <= '9',
    decreases n,
{
    if n >= 10 {
        lemma_decimal_first(n / 10);
        lemma_decimal_len(n / 10);
    }
}

/// Two years are written alike only where they are the same year.
pub proof fn lemma_year_text_injective(a: int, b: int)
    requires
        year_text(a) == year_text(b),
    ensures
        a == b,
{
    let (size_a, size_b) = (if a < 0 { -a } else { a }, if b < 0 { -b } else { b });
    lemma_four_digits_first(size_a as nat);
    lemma_four_digits_first(size_b as nat);
    let (digits_a, digits_b) = (four_digits(size_a as nat), four_digits(size_b as nat));
    if a < 0 {
        assert(year_text(a)[0] == '-');
        assert(digits_a == (seq!['-'] + digits_a).subrange(1, 1 + digits_a.len() as int));
        assert(digits_b == (seq!['-'] + digits_b).subrange(1, 1 + digits_b.len() as int));
    } else if a >= 10000 {
        assert(year_text(a)[0] == '+');
        assert(digits_a == (seq!['+'] + digits_a).subrange(1, 1 + digits_a.len() as int));
        assert(digits_b == (seq!['+'] + digits_b).subrange(1, 1 + digits_b.len() as int));
    }
    lemma_four_digits_injective(size_a as nat, size_b as nat);
}

/// Two dates are written alike only where they are the same day.
pub proof fn lemma_stamp_injective(a: DateView, b: DateView)
    requires
        a.valid(),
        b.valid(),
        a.stamp() == b.stamp(),
    ensures
        a == b,
{
    assert(two_digits(a.day) == a.stamp().subrange(0, 2));
    assert(two_digits(b.day) == b.stamp().subrange(0, 2));
    assert(two_digits(a.month) == a.stamp().subrange(3, 5));
    assert(two_digits(b.month) == b.stamp().subrange(3, 5));
    assert(year_text(a.year) == a.stamp().subrange(6, a.stamp().len() as int));
    assert(year_text(b.year) == b.stamp().subrange(6, b.stamp().len() as int));
    lemma_two_digits_injective(a.day, b.day);
    lemma_two_digits_injective(a.month, b.month);
    lemma_year_text_injective(a.year, b.year);
}

} // verus!
