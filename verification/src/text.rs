//! Text that the dashboard shows: numbers, clock times and joined lines.

use vstd::prelude::*;
use vstd::string::StringExecFns;
use crate::args::{all_digits, digits_value};

verus! {

/// The character of a decimal digit `d` (0 to 9).
pub open spec fn digit_char(d: int) -> char {
    (('0' as int) + d) as char
}

/// The decimal digits of a natural number, most significant first, without leading zeros.
pub open spec fn natural_text(n: nat) -> Seq<char>
    decreases n,
{
    if n < 10 {
        seq![digit_char(n as int)]
    } else {
        natural_text(n / 10) + seq![digit_char((n % 10) as int)]
    }
}

/// The decimal text of an integer, with a leading `-` when it is negative.
pub open spec fn decimal_text(n: int) -> Seq<char> {
    if n < 0 {
        seq!['-'] + natural_text((-n) as nat)
    } else {
        natural_text(n as nat)
    }
}

/// Calls `<i32 as ToString>::to_string`, which writes the integer in decimal through its
/// `Display` impl: a `-` for negative numbers, then the digits without leading zeros.
#[verifier::external_body]
pub(crate) fn i32_text(n: i32) -> (res: String)
    ensures
        res@ == decimal_text(n as int),
{
    n.to_string()
}

/// Two digits of a number below one hundred, zero-padded.
pub open spec fn two_digits(n: int) -> Seq<char> {
    seq![digit_char(n / 10), digit_char(n % 10)]
}

/// The `HH:MM:SS` wall-clock time (UTC) of a UNIX timestamp in milliseconds.
pub open spec fn clock_text(millis: int) -> Seq<char> {
    let secs_of_day = (millis / 1000) % 86400;
    two_digits(secs_of_day / 3600) + seq![':'] + two_digits((secs_of_day % 3600) / 60) + seq![':']
        + two_digits(secs_of_day % 60)
}

/// Two zero-padded digits spell the number below one hundred they were written for.
proof fn two_digits_spell(n: int)
    requires
        0 <= n < 100,
    ensures
        two_digits(n).len() == 2,
        all_digits(two_digits(n)),
        digits_value(two_digits(n)) == n,
{
    let t = two_digits(n);
    assert(digit_char(n / 10) as int == '0' as int + n / 10);
    assert(digit_char(n % 10) as int == '0' as int + n % 10);
    assert(t.drop_last() =~= seq![digit_char(n / 10)]);
    assert(t.drop_last().drop_last() =~= Seq::<char>::empty());
    assert(digits_value(Seq::<char>::empty()) == 0);
    assert(digits_value(seq![digit_char(n / 10)]) == n / 10);
    assert(n == (n / 10) * 10 + n % 10);
}

/// The clock text of a timestamp reads back as its time of day: two digits of hours
/// below 24, a colon, two of minutes below 60, a colon, two of seconds below 60, which
/// together count the seconds elapsed since midnight (UTC) at that timestamp.
pub proof fn clock_text_reads_as_time_of_day(millis: int)
    ensures
        clock_text(millis).len() == 8,
        clock_text(millis)[2] == ':',
        clock_text(millis)[5] == ':',
        all_digits(clock_text(millis).subrange(0, 2)),
        all_digits(clock_text(millis).subrange(3, 5)),
        all_digits(clock_text(millis).subrange(6, 8)),
        digits_value(clock_text(millis).subrange(0, 2)) < 24,
        digits_value(clock_text(millis).subrange(3, 5)) < 60,
        digits_value(clock_text(millis).subrange(6, 8)) < 60,
        digits_value(clock_text(millis).subrange(0, 2)) * 3600 + digits_value(
            clock_text(millis).subrange(3, 5),
        ) * 60 + digits_value(clock_text(millis).subrange(6, 8)) == (millis / 1000) % 86400,
{
    let sod = (millis / 1000) % 86400;
    let h = sod / 3600;
    let m = (sod % 3600) / 60;
    let sec = sod % 60;
    assert(0 <= sod < 86400);
    assert(0 <= h < 24 && 0 <= m < 60 && 0 <= sec < 60 && h * 3600 + m * 60 + sec == sod) by (nonlinear_arith)
        requires
            0 <= sod < 86400,
            h == sod / 3600,
            m == (sod % 3600) / 60,
            sec == sod % 60,
    ;
    two_digits_spell(h);
    two_digits_spell(m);
    two_digits_spell(sec);
    let t = clock_text(millis);
    assert(t.subrange(0, 2) =~= two_digits(h));
    assert(t.subrange(3, 5) =~= two_digits(m));
    assert(t.subrange(6, 8) =~= two_digits(sec));
}

/// The earliest timestamp, in milliseconds since the epoch, that `chrono` places: the
/// start of January 1 of the year -262143.
pub open spec fn clock_min_millis() -> int {
    -8_334_601_228_800_000
}

/// The latest timestamp, in milliseconds since the epoch, that `chrono` places: the last
/// millisecond of December 31 of the year 262142.
pub open spec fn clock_max_millis() -> int {
    8_210_266_876_799_999
}

/// Calls `chrono::DateTime::<Utc>::from_timestamp_millis` and then `format("%H:%M:%S")`.
/// The first returns `None` exactly for timestamps outside the dates chrono represents,
/// the years -262143 to 262142 (`NaiveDate::MIN` to `NaiveDate::MAX`). The format writes
/// the hour, minute and second of the UTC time, each as two zero-padded digits.
#[verifier::external_body]
pub(crate) fn format_clock(millis: i64) -> (res: Option<String>)
    ensures
        res is Some <==> clock_min_millis() <= millis <= clock_max_millis(),
        res matches Some(t) ==> t@ == clock_text(millis as int),
{
    match chrono::DateTime::from_timestamp_millis(millis) {
        Some(at) => Some(at.format("%H:%M:%S").to_string()),
        None => None,
    }
}

/// Lines joined with a newline between each two of them.
pub open spec fn joined_lines(lines: Seq<Seq<char>>) -> Seq<char>
    decreases lines.len(),
{
    if lines.len() == 0 {
        Seq::empty()
    } else if lines.len() == 1 {
        lines[0]
    } else {
        joined_lines(lines.drop_last()) + seq!['\n'] + lines.last()
    }
}

/// No lines join to the empty text, one line to itself, and one more line is appended
/// after a newline: every line is kept, in order, however many there are.
pub proof fn joined_lines_keep_every_line(lines: Seq<Seq<char>>, line: Seq<char>)
    ensures
        joined_lines(Seq::empty()) == Seq::<char>::empty(),
        joined_lines(seq![line]) == line,
        lines.len() > 0 ==> joined_lines(lines.push(line)) == joined_lines(lines) + seq!['\n'] + line,
{
    assert(lines.push(line).drop_last() =~= lines);
}

/// Joins lines with `"\n"` between each two of them, as `[String]::join` does.
pub fn join_lines(lines: &Vec<String>) -> (res: String)
    ensures
        res@ == joined_lines(lines@.map_values(|l: String| l@)),
{
    let ghost views = lines@.map_values(|l: String| l@);
    let mut res = String::new();
    let mut i: usize = 0;
    while i < lines.len()
        invariant
            i <= lines.len(),
            views == lines@.map_values(|l: String| l@),
            res@ == joined_lines(views.take(i as int)),
        decreases lines.len() - i,
    {
        if i > 0 {
            res.append("\n");
            proof {
                reveal_strlit("\n");
            }
        }
        res.append(lines[i].as_str());
        assert(views.take(i + 1).drop_last() =~= views.take(i as int));
        i = i + 1;
    }
    assert(views.take(lines.len() as int) =~= views);
    res
}

} // verus!
