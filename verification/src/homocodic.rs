//! Homocodic codes: the variants of a fiscal code in which digits, taken from the right,
//! give way to letters, so that two people who would share a code can be told apart.

use vstd::prelude::*;
use crate::checksum::{
    get_control_character, has_valid_control_character, is_fiscal_code,
    lemma_with_control_character, with_control_character,
};
use crate::tables::{
    all_code_chars, digit_to_number, homocodic_letter, is_ascii_digit, is_code_char,
    is_code_character, is_digit, lemma_homocodic_letter_is_upper, HOMOCODIC_LETTERS,
};
use crate::text::{chars_of, string_of};
use crate::{code_view, CodeError};

verus! {

/// The number of digits in `text`.
pub open spec fn digit_count(text: Seq<char>) -> nat
    decreases text.len(),
{
    if text.len() == 0 {
        0
    } else if is_digit(text.first()) {
        1 + digit_count(text.drop_first())
    } else {
        digit_count(text.drop_first())
    }
}

/// `text` after the substitution of depth `depth`: of its digits, the last `depth` are
/// replaced by their letters, and all of them where there are no more than `depth`.
/// So a digit is replaced exactly if fewer than `depth` digits stand to its right.
pub open spec fn substitute_digits(text: Seq<char>, depth: nat) -> Seq<char> {
    Seq::new(
        text.len(),
        |i: int|
            if is_digit(text[i]) && digit_count(text.skip(i + 1)) < depth {
                homocodic_letter(text[i])
            } else {
                text[i]
            },
    )
}

/// The homocodic variant of depth `depth` of the fiscal code `code`: the substitution is
/// made in the first fifteen characters of `code`, and the control character is computed
/// anew from the outcome.
pub open spec fn homocodic_code(code: Seq<char>, depth: nat) -> Seq<char> {
    with_control_character(substitute_digits(code.take(15), depth))
}

/// What the making of a homocodic code gives: the variant of the given depth for a text
/// that has the form of a fiscal code, and [`CodeError::MalformedCode`] for any other.
pub open spec fn homocodic_of(code: Seq<char>, depth: nat) -> Result<Seq<char>, CodeError> {
    if is_fiscal_code(code) {
        Ok(homocodic_code(code, depth))
    } else {
        Err(CodeError::MalformedCode)
    }
}

/// No more digits stand to the right of an index than in the whole text, and fewer
/// where the character at the index is itself a digit.
pub proof fn lemma_digits_to_the_right(text: Seq<char>, i: int)
    requires
        0 <= i < text.len(),
    ensures
        digit_count(text.skip(i + 1)) <= digit_count(text),
        is_digit(text[i]) ==> digit_count(text.skip(i + 1)) < digit_count(text),
    decreases i,
{
    assert(text.skip(i).drop_first() =~= text.skip(i + 1));
    assert(text.skip(i).first() == text[i]);
    if i == 0 {
        assert(text.skip(0) =~= text);
    } else {
        lemma_digits_to_the_right(text, i - 1);
    }
}

/// A substitution of depth 0 changes nothing.
pub proof fn lemma_substitute_depth_zero(text: Seq<char>)
    ensures
        substitute_digits(text, 0) == text,
{
    assert(substitute_digits(text, 0) =~= text);
}

/// Once the depth has reached the number of digits, a greater depth changes nothing more.
pub proof fn lemma_substitute_saturates(text: Seq<char>, depth: nat)
    requires
        depth >= digit_count(text),
    ensures
        substitute_digits(text, depth) == substitute_digits(text, digit_count(text)),
{
    assert forall|i: int| 0 <= i < text.len() implies substitute_digits(text, depth)[i]
        == substitute_digits(text, digit_count(text))[i] by {
        lemma_digits_to_the_right(text, i);
    }
    assert(substitute_digits(text, depth) =~= substitute_digits(text, digit_count(text)));
}

/// A substitution keeps the length of the text, and a text of capital letters and digits
/// stays one.
pub proof fn lemma_substitute_keeps_form(text: Seq<char>, depth: nat)
    ensures
        substitute_digits(text, depth).len() == text.len(),
        all_code_chars(text) ==> all_code_chars(substitute_digits(text, depth)),
{
    if all_code_chars(text) {
        assert forall|i: int| 0 <= i < text.len() implies is_code_char(
            #[trigger] substitute_digits(text, depth)[i],
        ) by {
            assert(is_code_char(text[i]));
            if is_digit(text[i]) {
                lemma_homocodic_letter_is_upper(text[i]);
            }
        }
    }
}

/// The homocodic variant of depth 0 of a fiscal code with a valid control character is
/// the code itself.
pub proof fn lemma_homocodic_depth_zero(code: Seq<char>)
    requires
        is_fiscal_code(code),
        has_valid_control_character(code),
    ensures
        homocodic_code(code, 0) == code,
        homocodic_of(code, 0) == Ok::<Seq<char>, CodeError>(code),
{
    lemma_substitute_depth_zero(code.take(15));
    assert(homocodic_code(code, 0) =~= code);
}

/// A depth beyond the number of digits in the first fifteen characters of a code gives
/// the same homocodic variant as a depth equal to that number.
pub proof fn lemma_homocodic_saturates(code: Seq<char>, depth: nat)
    requires
        depth >= digit_count(code.take(15)),
    ensures
        homocodic_code(code, depth) == homocodic_code(code, digit_count(code.take(15))),
        homocodic_of(code, depth) == homocodic_of(code, digit_count(code.take(15))),
{
    lemma_substitute_saturates(code.take(15), depth);
}

/// A homocodic variant of a fiscal code is a fiscal code with a valid control character.
pub proof fn lemma_homocodic_is_fiscal_code(code: Seq<char>, depth: nat)
    requires
        is_fiscal_code(code),
    ensures
        is_fiscal_code(homocodic_code(code, depth)),
        has_valid_control_character(homocodic_code(code, depth)),
{
    lemma_substitute_keeps_form(code.take(15), depth);
    lemma_with_control_character(substitute_digits(code.take(15), depth));
}

/// The letter that stands for the digit `c`.
fn letter_for_digit(c: char) -> (letter: char)
    requires
        is_digit(c),
    ensures
        letter == homocodic_letter(c),
{
    let digit: u32 = digit_to_number(c);
    HOMOCODIC_LETTERS[digit as usize]
}

/// `chars` in the opposite order.
fn reversed(chars: &Vec<char>) -> (r: Vec<char>)
    ensures
        r@ == chars@.reverse(),
{
    let mut r: Vec<char> = Vec::new();
    let mut i: usize = chars.len();
    while i > 0
        invariant
            i <= chars.len(),
            r@.len() == chars.len() - i,
            forall|k: int| 0 <= k < r@.len() ==> r@[k] == chars@[chars.len() - 1 - k],
        decreases i,
    {
        i -= 1;
        r.push(chars[i]);
    }
    proof {
        assert(r@ =~= chars@.reverse());
    }
    r
}

/// Replaces, from the right, up to `substitution_depth` digits of `preliminary_code` by
/// their letters. Characters that are no digits stay, and count for nothing.
pub fn generate_homocodic_preliminary_code(
    preliminary_code: &str,
    substitution_depth: u32,
) -> (substituted: String)
    ensures
        substituted@ == substitute_digits(preliminary_code@, substitution_depth as nat),
{
    if substitution_depth == 0 {
        proof {
            lemma_substitute_depth_zero(preliminary_code@);
        }
        return preliminary_code.to_owned();
    }
    let chars = chars_of(preliminary_code);
    let ghost text = chars@;
    let ghost depth = substitution_depth as nat;
    let mut remaining: u32 = substitution_depth;
    let mut new_preliminary_code: Vec<char> = Vec::new();
    let mut i: usize = chars.len();
    while i > 0
        invariant
            text == chars@,
            depth == substitution_depth,
            i <= chars.len(),
            remaining == if digit_count(text.skip(i as int)) >= depth {
                0
            } else {
                depth - digit_count(text.skip(i as int))
            },
            new_preliminary_code@.len() == chars.len() - i,
            forall|k: int|
                0 <= k < new_preliminary_code@.len() ==> new_preliminary_code@[k]
                    == substitute_digits(text, depth)[chars.len() - 1 - k],
        decreases i,
    {
        i -= 1;
        let c: char = chars[i];
        proof {
            assert(text.skip(i as int).drop_first() =~= text.skip(i + 1));
            assert(text.skip(i as int).first() == text[i as int]);
        }
        let new_c: char = if is_ascii_digit(c) && remaining != 0 {
            remaining -= 1;
            letter_for_digit(c)
        } else {
            c
        };
        new_preliminary_code.push(new_c);
    }
    let substituted = reversed(&new_preliminary_code);
    proof {
        assert(substituted@ =~= substitute_digits(text, depth));
    }
    string_of(&substituted)
}

/// Whether `chars` has the form of a fiscal code.
fn has_code_form(chars: &Vec<char>) -> (r: bool)
    ensures
        r == is_fiscal_code(chars@),
{
    if chars.len() != 16 {
        return false;
    }
    let mut i: usize = 0;
    while i < chars.len()
        invariant
            i <= chars.len(),
            forall|j: int| 0 <= j < i ==> is_code_char(#[trigger] chars@[j]),
        decreases chars.len() - i,
    {
        if !is_code_character(chars[i]) {
            return false;
        }
        i += 1;
    }
    true
}

/// Generate the homocodic version of the code, in case of homonymy.
///
/// The code must have the form of a fiscal code; one that has not is refused as
/// [`CodeError::MalformedCode`] and nothing is computed. The control character of `code`
/// is not looked at: it is dropped, and that of the result is computed anew.
pub fn generate_homocodic_from_code(code: &str, substitution_depth: u32) -> (r: Result<
    String,
    CodeError,
>)
    ensures
        code_view(r) == homocodic_of(code@, substitution_depth as nat),
        r is Ok ==> is_fiscal_code(r->Ok_0@) && has_valid_control_character(r->Ok_0@),
{
    let chars = chars_of(code);
    if !has_code_form(&chars) {
        return Err(CodeError::MalformedCode);
    }
    let mut preliminary_chars: Vec<char> = Vec::new();
    let mut i: usize = 0;
    while i < 15
        invariant
            i <= 15,
            chars@.len() == 16,
            preliminary_chars@ == chars@.take(i as int),
        decreases 15 - i,
    {
        preliminary_chars.push(chars[i]);
        i += 1;
    }
    let preliminary_code = string_of(&preliminary_chars);
    let mut homocodic = generate_homocodic_preliminary_code(
        preliminary_code.as_str(),
        substitution_depth,
    );
    proof {
        lemma_substitute_keeps_form(code@.take(15), substitution_depth as nat);
        lemma_homocodic_is_fiscal_code(code@, substitution_depth as nat);
    }
    let check_code: char = get_control_character(homocodic.as_str());
    homocodic.push(check_code);
    Ok(homocodic)
}

} // verus!
