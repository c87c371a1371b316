//! Command-line configuration of the dashboard.

use vstd::prelude::*;
use crate::text::{decimal_text, digit_char, natural_text};

verus! {

/// Why a text is no number of seconds.
#[derive(Clone, Copy, PartialEq, Eq, Structural, Debug)]
pub enum ParseSecondsError {
    /// The text is empty.
    Empty,
    /// The text holds something other than an optional `+` and decimal digits.
    InvalidDigit,
    /// The number is too large for a `u64`.
    PosOverflow,
    /// Any other kind of `ParseIntError`.
    Other,
}

/// The parse result that refuses a text for reason `kind`.
pub open spec fn refused(kind: ParseSecondsError) -> Result<u64, ParseSecondsError> {
    Err(kind)
}

/// True of a decimal digit.
pub open spec fn is_decimal_digit(c: char) -> bool {
    '0' <= c && c <= '9'
}

/// True of a non-empty text made of decimal digits only.
pub open spec fn all_digits(s: Seq<char>) -> bool {
    s.len() > 0 && forall|i: int| 0 <= i < s.len() ==> is_decimal_digit(#[trigger] s[i])
}

/// The number that a sequence of decimal digits spells, most significant first.
pub open spec fn digits_value(s: Seq<char>) -> nat
    decreases s.len(),
{
    if s.len() == 0 {
        0
    } else {
        digits_value(s.drop_last()) * 10 + ((s.last() as int) - ('0' as int)) as nat
    }
}

/// A number's text without its leading `+`, if it has one.
pub open spec fn number_body(s: Seq<char>) -> Seq<char> {
    if s.len() > 0 && s[0] == '+' {
        s.drop_first()
    } else {
        s
    }
}

/// The value of a decimal integer text as `u64` parsing reads it: an optional `+`
/// followed by at least one decimal digit and nothing else, whose value fits in a `u64`.
pub open spec fn u64_text_value(s: Seq<char>) -> Option<u64> {
    if all_digits(number_body(s)) && digits_value(number_body(s)) <= u64::MAX {
        Some(digits_value(number_body(s)) as u64)
    } else {
        None
    }
}

/// Calls `<u64 as FromStr>::from_str` (through `str::parse`) and, on failure,
/// `ParseIntError::kind`, mapping each `IntErrorKind` to the variant of the same name.
/// The documentation states that the text must be an optional `+` followed by decimal
/// digits only and that a value beyond `u64::MAX` is an error; that parsing an empty text
/// gives `Empty`; that a misplaced or lone sign and other characters give `InvalidDigit`;
/// and that an integer too large for the type gives `PosOverflow`. The contract claims
/// the success condition, `Empty` exactly for the empty text, `PosOverflow` for digits
/// whose value is too large, and `InvalidDigit` for a lone `+` and for the other refused
/// texts of at most 19 characters after the sign (too short to spell an overflowing
/// number). Any other refused non-empty text gets `InvalidDigit` or `PosOverflow`: the
/// other kinds belong to signed and non-zero types. Which of the two a longer text with a
/// stray character gets is left unstated: it depends on whether the character comes
/// before the digits overflow.
#[verifier::external_body]
fn parse_u64_text(arg: &str) -> (res: Result<u64, ParseSecondsError>)
    ensures
        res is Ok <==> u64_text_value(arg@) is Some,
        res matches Ok(n) ==> u64_text_value(arg@) == Some(n),
        res == refused(ParseSecondsError::Empty) <==> arg@.len() == 0,
        all_digits(number_body(arg@)) && digits_value(number_body(arg@)) > u64::MAX ==> res
            == refused(ParseSecondsError::PosOverflow),
        arg@.len() > 0 && !all_digits(number_body(arg@)) && number_body(arg@).len() <= 19 ==> res
            == refused(ParseSecondsError::InvalidDigit),
        arg@.len() > 0 && u64_text_value(arg@) is None ==> res == refused(
            ParseSecondsError::InvalidDigit,
        ) || res == refused(ParseSecondsError::PosOverflow),
{
    match arg.parse::<u64>() {
        Ok(n) => Ok(n),
        Err(e) => match e.kind() {
            core::num::IntErrorKind::Empty => Err(ParseSecondsError::Empty),
            core::num::IntErrorKind::InvalidDigit => Err(ParseSecondsError::InvalidDigit),
            core::num::IntErrorKind::PosOverflow => Err(ParseSecondsError::PosOverflow),
            _ => Err(ParseSecondsError::Other),
        },
    }
}

/// Parses a duration given on the command line as a whole number of seconds.
///
/// The result is the number of seconds; the program turns it into a
/// `std::time::Duration`. An empty text is `Empty`; digits too large for a `u64` are
/// `PosOverflow`; a lone `+`, and any other refused text of at most 19 characters after
/// the sign, is `InvalidDigit`; any other refused text is one of those two.
pub fn parse_duration(arg: &str) -> (res: Result<u64, ParseSecondsError>)
    ensures
        res is Ok <==> u64_text_value(arg@) is Some,
        res matches Ok(secs) ==> u64_text_value(arg@) == Some(secs),
        res == refused(ParseSecondsError::Empty) <==> arg@.len() == 0,
        all_digits(number_body(arg@)) && digits_value(number_body(arg@)) > u64::MAX ==> res
            == refused(ParseSecondsError::PosOverflow),
        arg@.len() > 0 && !all_digits(number_body(arg@)) && number_body(arg@).len() <= 19 ==> res
            == refused(ParseSecondsError::InvalidDigit),
        arg@.len() > 0 && u64_text_value(arg@) is None ==> res == refused(
            ParseSecondsError::InvalidDigit,
        ) || res == refused(ParseSecondsError::PosOverflow),
{
    parse_u64_text(arg)
}

/// The decimal text of a natural number is made of digits and spells the number.
proof fn natural_text_spells(n: nat)
    ensures
        natural_text(n).len() > 0,
        forall|i: int| 0 <= i < natural_text(n).len() ==> is_decimal_digit(#[trigger] natural_text(n)[i]),
        digits_value(natural_text(n)) == n,
        n > 0 ==> natural_text(n)[0] != '0',
    decreases n,
{
    let d: int = (n % 10) as int;
    assert(digit_char(d) as int == '0' as int + d);
    assert(n == (n / 10) * 10 + n % 10);
    if n < 10 {
        assert(natural_text(n).drop_last() =~= Seq::<char>::empty());
        assert(digits_value(Seq::<char>::empty()) == 0);
        assert(natural_text(n).last() == digit_char(d));
    } else {
        natural_text_spells(n / 10);
        let t = natural_text(n);
        assert(t.drop_last() =~= natural_text(n / 10));
        assert(t.last() == digit_char(d));
        assert(digits_value(t) == digits_value(natural_text(n / 10)) * 10 + d);
        assert forall|i: int| 0 <= i < t.len() implies is_decimal_digit(#[trigger] t[i]) by {
            if i < t.len() - 1 {
                assert(t[i] == natural_text(n / 10)[i]);
            }
        }
        assert(t[0] == natural_text(n / 10)[0]);
    }
}

/// The decimal text of an integer spells it: for a number at least zero, digits only,
/// with no leading zero, whose value is the number; for a negative number, a `-`
/// followed by the text of its absolute value. So it is the one canonical decimal
/// text of the number.
pub proof fn decimal_text_spells_the_number(n: int)
    ensures
        n >= 0 ==> all_digits(decimal_text(n)) && digits_value(decimal_text(n)) == n && (n > 0
            ==> decimal_text(n)[0] != '0'),
        n < 0 ==> decimal_text(n)[0] == '-' && all_digits(decimal_text(n).drop_first())
            && digits_value(decimal_text(n).drop_first()) == -n && decimal_text(n)[1] != '0',
{
    if n >= 0 {
        natural_text_spells(n as nat);
    } else {
        natural_text_spells((-n) as nat);
        let t = natural_text((-n) as nat);
        assert((seq!['-'] + t).drop_first() =~= t);
        assert((seq!['-'] + t)[1] == t[0]);
    }
}

/// Every number of seconds written in decimal, with or without a leading `+`, is
/// accepted by `parse_duration` and read back as that number.
pub proof fn decimal_seconds_parse_back(secs: u64)
    ensures
        u64_text_value(natural_text(secs as nat)) == Some(secs),
        u64_text_value(seq!['+'] + natural_text(secs as nat)) == Some(secs),
{
    natural_text_spells(secs as nat);
    let t = natural_text(secs as nat);
    assert(t[0] != '+');
    assert((seq!['+'] + t).drop_first() =~= t);
}

/// Settings of a stress run.
pub struct StressConfig {
    /// How many channels the run drives.
    pub channels: usize,
    /// Pause between rounds, in whole seconds.
    pub interval: u64,
    /// How many workers run rounds at the same time.
    pub workers: usize,
}

/// Settings of the database connection.
pub struct ServerConfig {
    pub keyspace: String,
    pub hostnames: Vec<String>,
    pub username: String,
    pub password: String,
    /// Connection timeout, in whole seconds.
    pub timeout: u64,
}

/// What the program is asked to run.
pub enum Commands {
    /// Run the application with the channels configured by the user.
    Twitch,
    /// Run the stress test of the application.
    Stress { stress: StressConfig },
}

/// The parsed command line.
pub struct Cli {
    pub command: Commands,
}

} // verus!
