//! The moment a message arrived, as the clock on the wall shows it, and the
//! words and numbers it is written with.

use vstd::prelude::*;
use vstd::string::StringExecFns;

verus! {

/// A moment in local time, to the minute.
pub struct LocalTime {
    weekday: u8,
    month: u8,
    day: u8,
    year: i32,
    hour: u8,
    minute: u8,
}

/// What a [`LocalTime`] holds.
pub struct LocalTimeSpec {
    /// The day of the week, counted from Monday as zero.
    pub weekday: nat,
    /// The month of the year, from 1 to 12.
    pub month: nat,
    /// The day of the month, from 1 to 31.
    pub day: nat,
    /// The year.
    pub year: int,
    /// The hour of the day, from 0 to 23.
    pub hour: nat,
    /// The minute of the hour, from 0 to 59.
    pub minute: nat,
}

impl LocalTimeSpec {
    /// Whether every part lies in its range.
    pub open spec fn wf(self) -> bool {
        &&& self.weekday < 7
        &&& 1 <= self.month <= 12
        &&& 1 <= self.day <= 31
        &&& i32::MIN <= self.year <= i32::MAX
        &&& self.hour < 24
        &&& self.minute < 60
    }
}

impl View for LocalTime {
    type V = LocalTimeSpec;

    closed spec fn view(&self) -> LocalTimeSpec {
        LocalTimeSpec {
            weekday: self.weekday as nat,
            month: self.month as nat,
            day: self.day as nat,
            year: self.year as int,
            hour: self.hour as nat,
            minute: self.minute as nat,
        }
    }
}

impl LocalTime {
    #[verifier::type_invariant]
    closed spec fn inv(self) -> bool {
        self@.wf()
    }

    /// The moment with these parts, where every part lies in its range: the
    /// weekday below 7, the month from 1 to 12, the day from 1 to 31, the
    /// hour below 24 and the minute below 60.
    pub fn new(weekday: u32, month: u32, day: u32, year: i32, hour: u32, minute: u32) -> (time:
        Option<Self>)
        ensures
            time is Some <==> (LocalTimeSpec {
                weekday: weekday as nat,
                month: month as nat,
                day: day as nat,
                year: year as int,
                hour: hour as nat,
                minute: minute as nat,
            }).wf(),
            time matches Some(time) ==> time@ == (LocalTimeSpec {
                weekday: weekday as nat,
                month: month as nat,
                day: day as nat,
                year: year as int,
                hour: hour as nat,
                minute: minute as nat,
            }),
    {
        if weekday < 7 && 1 <= month && month <= 12 && 1 <= day && day <= 31 && hour < 24 && minute
            < 60 {
            Some(
                LocalTime {
                    weekday: weekday as u8,
                    month: month as u8,
                    day: day as u8,
                    year,
                    hour: hour as u8,
                    minute: minute as u8,
                },
            )
        } else {
            None
        }
    }

    /// The day of the week, counted from Monday as zero.
    pub fn weekday(&self) -> (weekday: u8)
        ensures
            weekday == self@.weekday,
            weekday < 7,
    {
        proof {
            use_type_invariant(self);
        }
        self.weekday
    }

    /// The month of the year, from 1 to 12.
    pub fn month(&self) -> (month: u8)
        ensures
            month == self@.month,
            1 <= month <= 12,
    {
        proof {
            use_type_invariant(self);
        }
        self.month
    }

    /// The day of the month, from 1 to 31.
    pub fn day(&self) -> (day: u8)
        ensures
            day == self@.day,
            1 <= day <= 31,
    {
        proof {
            use_type_invariant(self);
        }
        self.day
    }

    /// The year.
    pub fn year(&self) -> (year: i32)
        ensures
            year == self@.year,
    {
        self.year
    }

    /// The hour of the day, from 0 to 23.
    pub fn hour(&self) -> (hour: u8)
        ensures
            hour == self@.hour,
            hour < 24,
    {
        proof {
            use_type_invariant(self);
        }
        self.hour
    }

    /// The minute of the hour, from 0 to 59.
    pub fn minute(&self) -> (minute: u8)
        ensures
            minute == self@.minute,
            minute < 60,
    {
        proof {
            use_type_invariant(self);
        }
        self.minute
    }
}

/// The short English name of a day of the week, counted from Monday as zero.
pub open spec fn weekday_name(weekday: nat) -> Seq<char> {
    if weekday == 0 {
        "Mon"@
    } else if weekday == 1 {
        "Tue"@
    } else if weekday == 2 {
        "Wed"@
    } else if weekday == 3 {
        "Thu"@
    } else if weekday == 4 {
        "Fri"@
    } else if weekday == 5 {
        "Sat"@
    } else {
        "Sun"@
    }
}

/// The English name of a month, counted from January as one.
pub open spec fn month_name(month: nat) -> Seq<char> {
    if month == 1 {
        "January"@
    } else if month == 2 {
        "February"@
    } else if month == 3 {
        "March"@
    } else if month == 4 {
        "April"@
    } else if month == 5 {
        "May"@
    } else if month == 6 {
        "June"@
    } else if month == 7 {
        "July"@
    } else if month == 8 {
        "August"@
    } else if month == 9 {
        "September"@
    } else if month == 10 {
        "October"@
    } else if month == 11 {
        "November"@
    } else {
        "December"@
    }
}

/// The hour as a clock with twelve hours shows it: from 1 to 12.
pub open spec fn hour12(hour: nat) -> nat {
    if hour % 12 == 0 {
        12
    } else {
        hour % 12
    }
}

/// The half of the day that an hour lies in: `AM` before noon, `PM` from
/// noon on.
pub open spec fn meridiem(hour: nat) -> Seq<char> {
    if hour >= 12 {
        "PM"@
    } else {
        "AM"@
    }
}

/// The character of a decimal digit.
pub open spec fn digit(value: nat) -> char {
    if value == 0 {
        '0'
    } else if value == 1 {
        '1'
    } else if value == 2 {
        '2'
    } else if value == 3 {
        '3'
    } else if value == 4 {
        '4'
    } else if value == 5 {
        '5'
    } else if value == 6 {
        '6'
    } else if value == 7 {
        '7'
    } else if value == 8 {
        '8'
    } else {
        '9'
    }
}

/// A number in decimal digits, without leading zeros.
pub open spec fn decimal(value: nat) -> Seq<char>
    decreases value,
{
    if value < 10 {
        seq![digit(value)]
    } else {
        decimal(value / 10).push(digit(value % 10))
    }
}

/// A number in decimal digits, behind a minus sign where it is negative.
pub open spec fn signed_decimal(value: int) -> Seq<char> {
    if value < 0 {
        seq!['-'] + decimal((-value) as nat)
    } else {
        decimal(value as nat)
    }
}

/// The line that tells when a message arrived: the weekday, the month, the
/// day and the year, then the time on a clock with twelve hours. Neither
/// the hour nor the minute is padded.
pub open spec fn date_line(time: LocalTimeSpec) -> Seq<char> {
    weekday_name(time.weekday) + ", "@ + month_name(time.month) + " "@ + decimal(time.day) + ", "@
        + signed_decimal(time.year) + " at "@ + decimal(hour12(time.hour)) + ":"@ + decimal(
        time.minute,
    ) + " "@ + meridiem(time.hour)
}

/// The short English name of the day of the week `weekday`.
///
/// The name is the text that `chrono::Weekday` displays as, for the weekday
/// that `chrono::Weekday::try_from` makes of the number: it counts from
/// Monday as zero and knows the numbers below 7, and the texts are `Mon`,
/// `Tue`, `Wed`, `Thu`, `Fri`, `Sat` and `Sun`.
#[verifier::external_body]
pub(crate) fn weekday_text(weekday: u8) -> (name: String)
    requires
        weekday < 7,
    ensures
        name@ == weekday_name(weekday as nat),
{
    match chrono::Weekday::try_from(weekday) {
        Ok(weekday) => weekday.to_string(),
        Err(_) => String::new(),
    }
}

/// The English name of the month `month`.
///
/// The name is what `chrono::Month::name` returns for the month that
/// `chrono::Month::try_from` makes of the number: it counts from January as
/// one and knows the numbers from 1 to 12, and the names are the full
/// English ones, `January` to `December`.
#[verifier::external_body]
pub(crate) fn month_text(month: u8) -> (name: String)
    requires
        1 <= month <= 12,
    ensures
        name@ == month_name(month as nat),
{
    match chrono::Month::try_from(month) {
        Ok(month) => month.name().to_owned(),
        Err(_) => String::new(),
    }
}

/// The text of one decimal digit.
fn digit_text(value: u64) -> (text: &'static str)
    requires
        value < 10,
    ensures
        text@ == seq![digit(value as nat)],
{
    proof {
        reveal_strlit("0");
        reveal_strlit("1");
        reveal_strlit("2");
        reveal_strlit("3");
        reveal_strlit("4");
        reveal_strlit("5");
        reveal_strlit("6");
        reveal_strlit("7");
        reveal_strlit("8");
        reveal_strlit("9");
    }
    let text = if value == 0 {
        "0"
    } else if value == 1 {
        "1"
    } else if value == 2 {
        "2"
    } else if value == 3 {
        "3"
    } else if value == 4 {
        "4"
    } else if value == 5 {
        "5"
    } else if value == 6 {
        "6"
    } else if value == 7 {
        "7"
    } else if value == 8 {
        "8"
    } else {
        "9"
    };
    assert(text@ =~= seq![digit(value as nat)]);
    text
}

/// Writes `value` in decimal digits at the end of `text`.
pub fn push_decimal(text: &mut String, value: u64)
    ensures
        final(text)@ == old(text)@ + decimal(value as nat),
    decreases value,
{
    if value >= 10 {
        push_decimal(text, value / 10);
    }
    text.append(digit_text(value % 10));
    assert(text@ =~= old(text)@ + decimal(value as nat));
}

/// Writes `value` in decimal digits at the end of `text`, behind a minus
/// sign where it is negative.
pub fn push_signed_decimal(text: &mut String, value: i32)
    ensures
        final(text)@ == old(text)@ + signed_decimal(value as int),
{
    if value < 0 {
        proof {
            reveal_strlit("-");
        }
        text.append("-");
        push_decimal(text, (-(value as i64)) as u64);
        assert(text@ =~= old(text)@ + signed_decimal(value as int));
    } else {
        push_decimal(text, value as u64);
    }
}

} // verus!
