//! The parts of a fiscal code that come from the birth date: two digits for the year,
//! a letter for the month, and two digits for the day, which also tell the sex.

use vstd::prelude::*;
use chrono::{Datelike, Month, NaiveDate, OutOfRange};
use crate::tables::{
    all_code_chars, digit_char, digit_value, is_code_char, is_digit, month_letter,
    number_to_digit, MONTH_LETTERS,
};
use crate::text::{chars_of, string_of};
use crate::Sex;

verus! {

/// A calendar date of `chrono`. The library reads its year, month and day, no more.
#[verifier::external_type_specification]
#[verifier::external_body]
pub struct ExNaiveDate(NaiveDate);

/// A month of the year, as `chrono` names it.
#[verifier::external_type_specification]
#[verifier::external_body]
pub struct ExMonth(Month);

/// The error with which `chrono` refuses a number that is no month.
#[verifier::external_type_specification]
#[verifier::external_body]
pub struct ExOutOfRange(OutOfRange);

/// The year of a date, as `Datelike::year` gives it.
pub uninterp spec fn date_year(date: NaiveDate) -> int;

/// The month of a date, January being 1, as `Datelike::month` gives it.
pub uninterp spec fn date_month(date: NaiveDate) -> int;

/// The day of the month of a date, as `Datelike::day` gives it.
pub uninterp spec fn date_day(date: NaiveDate) -> int;

/// The number of a month, January being 1, as `Month::number_from_month` gives it.
pub uninterp spec fn month_number(month: Month) -> int;

/// Calls `Datelike::year` on a `NaiveDate`. Nothing is claimed of the year but that it is
/// the year of this date.
#[verifier::external_body]
pub(crate) fn year_of(date: &NaiveDate) -> (year: i32)
    ensures
        year == date_year(*date),
{
    date.year()
}

/// Calls `Datelike::month` on a `NaiveDate`, which gives the month number of the date,
/// from 1 to 12.
#[verifier::external_body]
pub(crate) fn month_of(date: &NaiveDate) -> (month: u32)
    ensures
        month == date_month(*date),
        1 <= month <= 12,
{
    date.month()
}

/// Calls `Datelike::day` on a `NaiveDate`, which gives the day of the month of the date,
/// from 1 to 31.
#[verifier::external_body]
pub(crate) fn day_of(date: &NaiveDate) -> (day: u32)
    ensures
        day == date_day(*date),
        1 <= day <= 31,
{
    date.day()
}

/// Calls `Month::try_from` on a `u8`: the numbers 1 to 12 give the month of that number,
/// every other number is refused.
#[verifier::external_body]
pub(crate) fn month_from_number(number: u8) -> (r: Result<Month, OutOfRange>)
    ensures
        r is Ok <==> 1 <= number <= 12,
        r matches Ok(month) ==> month_number(month) == number,
{
    Month::try_from(number)
}

/// Calls `Month::number_from_month`, which gives the number of the month, from 1 for
/// January to 12 for December.
#[verifier::external_body]
pub(crate) fn number_from_month(month: &Month) -> (number: u32)
    ensures
        number == month_number(*month),
        1 <= number <= 12,
{
    month.number_from_month()
}

/// `n` written in decimal digits, without leading zeros.
pub open spec fn decimal(n: nat) -> Seq<char>
    decreases n,
{
    if n < 10 {
        seq![digit_char(n as int)]
    } else {
        decimal(n / 10).push(digit_char((n % 10) as int))
    }
}

/// `n` written in at least two decimal digits: a number below 10 gets a zero in front,
/// a number of more than two digits keeps them all.
pub open spec fn two_digits(n: nat) -> Seq<char> {
    if n < 10 {
        seq!['0', digit_char(n as int)]
    } else {
        decimal(n)
    }
}

/// `text` is made of exactly four digits.
pub open spec fn is_four_digits(text: Seq<char>) -> bool {
    text.len() == 4 && forall|i: int| 0 <= i < 4 ==> is_digit(#[trigger] text[i])
}

/// The part of the code that stands for the year: the last two digits of its four.
pub open spec fn year_fragment(year: int) -> Seq<char>
    recommends
        1000 <= year <= 9999,
{
    decimal(year as nat).skip(2)
}

/// The number that stands for the day in the code: the day of the month, and 40 more
/// for a woman.
pub open spec fn day_number(day: int, sex: Sex) -> int {
    match sex {
        Sex::M => day,
        Sex::F => day + 40,
    }
}

/// The part of the code that stands for the day and the sex.
pub open spec fn day_fragment(day: int, sex: Sex) -> Seq<char>
    recommends
        1 <= day,
{
    two_digits(day_number(day, sex) as nat)
}

/// The number that a text of two digits writes.
pub open spec fn two_digit_value(text: Seq<char>) -> int
    recommends
        text.len() == 2,
{
    10 * digit_value(text[0]) + digit_value(text[1])
}

/// A year from 1000 to 9999 is written in four digits, which are those of its thousands,
/// hundreds, tens and units.
pub proof fn lemma_decimal_of_year(year: int)
    requires
        1000 <= year <= 9999,
    ensures
        is_four_digits(decimal(year as nat)),
        decimal(year as nat) == seq![
            digit_char(year / 1000),
            digit_char(year / 100 % 10),
            digit_char(year / 10 % 10),
            digit_char(year % 10),
        ],
        year_fragment(year) == seq![digit_char(year / 10 % 10), digit_char(year % 10)],
{
    reveal_with_fuel(decimal, 4);
    let digits = seq![
        digit_char(year / 1000),
        digit_char(year / 100 % 10),
        digit_char(year / 10 % 10),
        digit_char(year % 10),
    ];
    assert(decimal(year as nat) =~= digits);
    assert(digits.skip(2) =~= seq![digit_char(year / 10 % 10), digit_char(year % 10)]);
}

/// A number below 100 is written in two digits, those of its tens and of its units.
pub proof fn lemma_two_digits_below_100(n: nat)
    requires
        n < 100,
    ensures
        two_digits(n) == seq![digit_char((n / 10) as int), digit_char((n % 10) as int)],
        two_digits(n).len() == 2,
        all_code_chars(two_digits(n)),
        two_digit_value(two_digits(n)) == n,
{
    reveal_with_fuel(decimal, 2);
    let digits = seq![digit_char((n / 10) as int), digit_char((n % 10) as int)];
    assert(two_digits(n) =~= digits);
    assert(is_code_char(digits[0]) && is_code_char(digits[1]));
}

/// The day parts of the codes of a man and a woman born on the same day write numbers
/// that differ by 40: the woman's is the man's and 40 more.
pub proof fn lemma_sex_offset(day: int)
    requires
        1 <= day <= 31,
    ensures
        two_digit_value(day_fragment(day, Sex::F)) == two_digit_value(day_fragment(day, Sex::M))
            + 40,
        two_digit_value(day_fragment(day, Sex::M)) == day,
        two_digit_value(day_fragment(day, Sex::F)) >= 41,
{
    lemma_two_digits_below_100(day as nat);
    lemma_two_digits_below_100((day + 40) as nat);
}

/// Appends the decimal digits of `n` to `out`.
fn push_decimal(n: u32, out: &mut Vec<char>)
    ensures
        final(out)@ == old(out)@ + decimal(n as nat),
    decreases n,
{
    if n >= 10 {
        push_decimal(n / 10, out);
    }
    out.push(number_to_digit(n % 10));
    proof {
        if n >= 10 {
            assert(final(out)@ =~= old(out)@ + decimal(n as nat));
        } else {
            assert(final(out)@ =~= old(out)@ + decimal(n as nat));
        }
    }
}

/// `n` in decimal digits.
pub fn decimal_text(n: u32) -> (text: String)
    ensures
        text@ == decimal(n as nat),
{
    let mut digits: Vec<char> = Vec::new();
    push_decimal(n, &mut digits);
    proof {
        assert(digits@ =~= decimal(n as nat));
    }
    string_of(&digits)
}

/// `n` in at least two decimal digits, with a zero in front of a single one.
pub fn two_digit_text(n: u32) -> (text: String)
    ensures
        text@ == two_digits(n as nat),
{
    let mut digits: Vec<char> = Vec::new();
    if n < 10 {
        digits.push('0');
    }
    push_decimal(n, &mut digits);
    proof {
        assert(digits@ =~= two_digits(n as nat));
    }
    string_of(&digits)
}

/// The letter of the given month.
pub fn get_month_letter(month: &Month) -> (letter: char)
    ensures
        letter == month_letter(month_number(*month)),
{
    let month_num: usize = number_from_month(month) as usize;
    MONTH_LETTERS[month_num - 1]
}

/// The last two digits of a year given as a text of four digits.
pub fn get_year(year: &str) -> (fragment: String)
    requires
        is_four_digits(year@),
    ensures
        fragment@ == year@.skip(2),
{
    let year_char = chars_of(year);
    let mut fragment: Vec<char> = Vec::new();
    fragment.push(year_char[2]);
    fragment.push(year_char[3]);
    proof {
        assert(fragment@ =~= year@.skip(2));
    }
    string_of(&fragment)
}

/// The number that stands for the day in the code: the day itself for a man, and 40 more
/// for a woman.
pub fn get_day(day: u32, sex: Sex) -> (number: u32)
    requires
        day <= u32::MAX - 40,
    ensures
        number == day_number(day as int, sex),
{
    match sex {
        Sex::M => day,
        Sex::F => day + 40,
    }
}

} // verus!
