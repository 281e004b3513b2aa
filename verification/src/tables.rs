//! Character tables of the fiscal code and the character classes they are defined on.
//!
//! Every table is constant data, stated once: contracts and executable code read the same
//! constants.

use vstd::prelude::*;

verus! {

/// The alphabet in its usual order. The position of a letter is its value at an even place,
/// and the control character is the letter at the position given by the checksum.
pub const ALPHABET: [char; 26] = [
    'A', 'B', 'C', 'D', 'E', 'F', 'G', 'H', 'I', 'J', 'K', 'L', 'M',
    'N', 'O', 'P', 'Q', 'R', 'S', 'T', 'U', 'V', 'W', 'X', 'Y', 'Z',
];

/// Values of the characters that stand at an odd place of the code:
/// first those of the digits `0` to `9`, then those of the letters `A` to `Z`.
pub const ODD_VALUES: [u32; 36] = [
    1, 0, 5, 7, 9, 13, 15, 17, 19, 21,
    1, 0, 5, 7, 9, 13, 15, 17, 19, 21, 2, 4, 18, 20, 11, 3, 6, 8, 12, 14, 16, 10, 22, 25, 24, 23,
];

/// The letter that replaces each digit `0` to `9` in a homocodic code.
pub const HOMOCODIC_LETTERS: [char; 10] = ['L', 'M', 'N', 'P', 'Q', 'R', 'S', 'T', 'U', 'V'];

/// The letter of each month, January first.
pub const MONTH_LETTERS: [char; 12] = ['A', 'B', 'C', 'D', 'E', 'H', 'L', 'M', 'P', 'R', 'S', 'T'];

/// `c` is one of the ASCII digits `0` to `9`.
pub open spec fn is_digit(c: char) -> bool {
    '0' <= c <= '9'
}

/// `c` is one of the ASCII capital letters `A` to `Z`.
pub open spec fn is_upper(c: char) -> bool {
    'A' <= c <= 'Z'
}

/// `c` is one of the ASCII small letters `a` to `z`.
pub open spec fn is_lower(c: char) -> bool {
    'a' <= c <= 'z'
}

/// `c` is an ASCII letter or digit.
pub open spec fn is_alnum(c: char) -> bool {
    is_digit(c) || is_upper(c) || is_lower(c)
}

/// `c` may stand in a fiscal code: an ASCII capital letter or a digit.
pub open spec fn is_code_char(c: char) -> bool {
    is_digit(c) || is_upper(c)
}

/// Every character of `s` is an ASCII letter or digit.
pub open spec fn all_alnum(s: Seq<char>) -> bool {
    forall|i: int| 0 <= i < s.len() ==> is_alnum(#[trigger] s[i])
}

/// Every character of `s` may stand in a fiscal code.
pub open spec fn all_code_chars(s: Seq<char>) -> bool {
    forall|i: int| 0 <= i < s.len() ==> is_code_char(#[trigger] s[i])
}

/// The capital of an ASCII small letter; any other character unchanged.
pub open spec fn to_upper(c: char) -> char {
    if is_lower(c) {
        ((c as u32) - 32) as char
    } else {
        c
    }
}

/// `s` with each ASCII small letter replaced by its capital.
pub open spec fn uppercase(s: Seq<char>) -> Seq<char> {
    Seq::new(s.len(), |i: int| to_upper(s[i]))
}

/// The number that the digit `c` writes.
pub open spec fn digit_value(c: char) -> int
    recommends
        is_digit(c),
{
    c as u32 - '0' as u32
}

/// The digit that writes `n`.
pub open spec fn digit_char(n: int) -> char
    recommends
        0 <= n <= 9,
{
    ('0' as u32 + n) as char
}

/// The position of the capital letter `c` in the alphabet, `A` at 0.
pub open spec fn letter_rank(c: char) -> int
    recommends
        is_upper(c),
{
    c as u32 - 'A' as u32
}

/// The value of `c` at an even place: a digit counts as the number it writes,
/// a letter as its position in the alphabet. Small letters count as their capitals.
pub open spec fn even_value(c: char) -> int
    recommends
        is_alnum(c),
{
    let u = to_upper(c);
    if is_digit(u) {
        digit_value(u)
    } else {
        letter_rank(u)
    }
}

/// Where the value of `c` stands in [`ODD_VALUES`].
pub open spec fn odd_index(c: char) -> int
    recommends
        is_alnum(c),
{
    let u = to_upper(c);
    if is_digit(u) {
        digit_value(u)
    } else {
        10 + letter_rank(u)
    }
}

/// The value of `c` at an odd place, read from [`ODD_VALUES`].
/// Small letters count as their capitals.
pub open spec fn odd_value(c: char) -> int
    recommends
        is_alnum(c),
{
    ODD_VALUES@[odd_index(c)] as int
}

/// The letter that stands for the digit `c` in a homocodic code.
pub open spec fn homocodic_letter(c: char) -> char
    recommends
        is_digit(c),
{
    HOMOCODIC_LETTERS@[digit_value(c)]
}

/// The letter of the month with number `month`, January being 1.
pub open spec fn month_letter(month: int) -> char
    recommends
        1 <= month <= 12,
{
    MONTH_LETTERS@[month - 1]
}

/// Each entry of [`ALPHABET`] is a capital letter, and its rank is its index.
pub proof fn lemma_alphabet_letters(i: int)
    requires
        0 <= i < 26,
    ensures
        is_upper(ALPHABET@[i]),
        letter_rank(ALPHABET@[i]) == i,
{
}

/// The values of both tables lie in `0..26`.
pub proof fn lemma_values_in_range(c: char)
    requires
        is_alnum(c),
    ensures
        0 <= even_value(c) < 26,
        0 <= odd_index(c) < 36,
        0 <= odd_value(c) < 26,
{
}

/// The letters that replace digits are capital letters.
pub proof fn lemma_homocodic_letter_is_upper(c: char)
    requires
        is_digit(c),
    ensures
        is_upper(homocodic_letter(c)),
{
}

/// Whether `c` is an ASCII digit.
pub fn is_ascii_digit(c: char) -> (r: bool)
    ensures
        r == is_digit(c),
{
    '0' <= c && c <= '9'
}

/// Whether `c` may stand in a fiscal code.
pub fn is_code_character(c: char) -> (r: bool)
    ensures
        r == is_code_char(c),
{
    ('0' <= c && c <= '9') || ('A' <= c && c <= 'Z')
}

/// The capital of an ASCII small letter; any other character unchanged.
pub fn to_ascii_uppercase(c: char) -> (r: char)
    ensures
        r == to_upper(c),
{
    if 'a' <= c && c <= 'z' {
        ((c as u8) - 32) as char
    } else {
        c
    }
}

/// The number that the digit `c` writes.
pub fn digit_to_number(c: char) -> (r: u32)
    requires
        is_digit(c),
    ensures
        r == digit_value(c),
        r <= 9,
{
    (c as u32) - ('0' as u32)
}

/// The digit that writes `n`.
pub fn number_to_digit(n: u32) -> (r: char)
    requires
        n <= 9,
    ensures
        r == digit_char(n as int),
        is_digit(r),
        digit_value(r) == n,
{
    ((n as u8) + 48) as char
}

/// The position of the capital letter `c` in the alphabet.
pub fn alphabet_position(c: char) -> (r: u32)
    requires
        is_upper(c),
    ensures
        r == letter_rank(c),
        r < 26,
        ALPHABET@[r as int] == c,
{
    (c as u32) - ('A' as u32)
}

} // verus!
