//! Calendar timestamps as plain values, and the short month-day form used to
//! label a run's output.

use vstd::prelude::*;
use vstd::string::StringExecFns;

verus! {

/// A calendar timestamp held as plain fields. The external collaborator that
/// parses raw date strings hands the library values of this type.
#[derive(Clone, Copy, Debug, PartialEq, Eq, Structural)]
pub struct DateTime {
    pub year: i32,
    pub month: u8,
    pub day: u8,
    pub hour: u8,
    pub minute: u8,
    pub second: u8,
}

/// The English three-letter abbreviation of a month number, empty for a
/// number outside 1..=12.
pub open spec fn month_abbrev(month: u8) -> Seq<char> {
    if month == 1 {
        "Jan"@
    } else if month == 2 {
        "Feb"@
    } else if month == 3 {
        "Mar"@
    } else if month == 4 {
        "Apr"@
    } else if month == 5 {
        "May"@
    } else if month == 6 {
        "Jun"@
    } else if month == 7 {
        "Jul"@
    } else if month == 8 {
        "Aug"@
    } else if month == 9 {
        "Sep"@
    } else if month == 10 {
        "Oct"@
    } else if month == 11 {
        "Nov"@
    } else if month == 12 {
        "Dec"@
    } else {
        Seq::<char>::empty()
    }
}

/// One decimal digit as a string.
pub open spec fn digit_str(d: int) -> Seq<char> {
    if d == 0 {
        "0"@
    } else if d == 1 {
        "1"@
    } else if d == 2 {
        "2"@
    } else if d == 3 {
        "3"@
    } else if d == 4 {
        "4"@
    } else if d == 5 {
        "5"@
    } else if d == 6 {
        "6"@
    } else if d == 7 {
        "7"@
    } else if d == 8 {
        "8"@
    } else {
        "9"@
    }
}

/// A day number as two digits, zero-padded, as the `%d` date format writes it.
pub open spec fn two_digit(n: u8) -> Seq<char> {
    digit_str((n / 10 % 10) as int) + digit_str((n % 10) as int)
}

/// The abbreviated-month-plus-day form (`%b%d`) that names output files.
pub open spec fn pretty_date(t: DateTime) -> Seq<char> {
    month_abbrev(t.month) + two_digit(t.day)
}

fn month_abbrev_str(month: u8) -> (r: &'static str)
    ensures
        r@ == month_abbrev(month),
{
    match month {
        1 => "Jan",
        2 => "Feb",
        3 => "Mar",
        4 => "Apr",
        5 => "May",
        6 => "Jun",
        7 => "Jul",
        8 => "Aug",
        9 => "Sep",
        10 => "Oct",
        11 => "Nov",
        12 => "Dec",
        _ => {
            proof {
                reveal_strlit("");
                assert(""@ =~= Seq::<char>::empty());
            }
            ""
        },
    }
}

fn digit_str_exec(d: u8) -> (r: &'static str)
    requires
        d < 10,
    ensures
        r@ == digit_str(d as int),
{
    match d {
        0 => "0",
        1 => "1",
        2 => "2",
        3 => "3",
        4 => "4",
        5 => "5",
        6 => "6",
        7 => "7",
        8 => "8",
        _ => "9",
    }
}

/// Render `t` in the `%b%d` form, e.g. the eleventh of October as `Oct11`.
pub fn format_month_day(t: &DateTime) -> (r: String)
    ensures
        r@ == pretty_date(*t),
{
    let mut s = String::from_str(month_abbrev_str(t.month));
    s.append(digit_str_exec(t.day / 10 % 10));
    s.append(digit_str_exec(t.day % 10));
    s
}

} // verus!
