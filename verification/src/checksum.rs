//! The control character: the last character of a fiscal code, computed from the others.

use vstd::prelude::*;
use crate::tables::{
    all_alnum, all_code_chars, alphabet_position, digit_to_number, even_value, is_alnum,
    is_ascii_digit, is_upper, lemma_alphabet_letters, lemma_values_in_range, odd_index,
    odd_value, to_ascii_uppercase, ALPHABET, ODD_VALUES,
};
use crate::text::chars_of;

verus! {

/// The value of the character `c` at index `i` of a code. Indices count from 0, so the
/// character at an even index stands at an odd place of the code, and the other way round.
pub open spec fn place_value(i: int, c: char) -> int {
    if i % 2 == 0 {
        odd_value(c)
    } else {
        even_value(c)
    }
}

/// The sum of the values of all characters of `code`, each taken at its place.
pub open spec fn checksum(code: Seq<char>) -> int
    decreases code.len(),
{
    if code.len() == 0 {
        0
    } else {
        checksum(code.drop_last()) + place_value(code.len() - 1, code.last())
    }
}

/// The control character of `code`: the letter whose position in the alphabet is the
/// remainder of the checksum by 26.
pub open spec fn control_character(code: Seq<char>) -> char {
    ALPHABET@[checksum(code) % 26]
}

/// The characters of `code` at the indices of the given parity (0 or 1), in their order.
pub open spec fn characters_at(code: Seq<char>, parity: int) -> Seq<char>
    decreases code.len(),
{
    if code.len() == 0 {
        Seq::empty()
    } else if (code.len() - 1) % 2 == parity {
        characters_at(code.drop_last(), parity).push(code.last())
    } else {
        characters_at(code.drop_last(), parity)
    }
}

/// The sum of the numbers in `values`.
pub open spec fn total(values: Seq<u32>) -> int
    decreases values.len(),
{
    if values.len() == 0 {
        0
    } else {
        total(values.drop_last()) + values.last()
    }
}

/// `values` holds the even-place value of each character of `chars`.
pub open spec fn even_values_of(chars: Seq<char>, values: Seq<u32>) -> bool {
    &&& values.len() == chars.len()
    &&& forall|i: int| 0 <= i < chars.len() ==> #[trigger] values[i] == even_value(chars[i])
}

/// `values` holds the odd-place value of each character of `chars`.
pub open spec fn odd_values_of(chars: Seq<char>, values: Seq<u32>) -> bool {
    &&& values.len() == chars.len()
    &&& forall|i: int| 0 <= i < chars.len() ==> #[trigger] values[i] == odd_value(chars[i])
}

/// `text` has the form of a code without its control character: fifteen characters,
/// each a capital letter or a digit.
pub open spec fn is_preliminary_code(text: Seq<char>) -> bool {
    text.len() == 15 && all_code_chars(text)
}

/// `text` has the form of a fiscal code: sixteen characters, each a capital letter or
/// a digit.
pub open spec fn is_fiscal_code(text: Seq<char>) -> bool {
    text.len() == 16 && all_code_chars(text)
}

/// The last character of `code` is the control character of the fifteen before it.
pub open spec fn has_valid_control_character(code: Seq<char>) -> bool
    recommends
        code.len() == 16,
{
    code[15] == control_character(code.take(15))
}

/// `preliminary_code` with its control character appended.
pub open spec fn with_control_character(preliminary_code: Seq<char>) -> Seq<char> {
    preliminary_code.push(control_character(preliminary_code))
}

/// Appending the control character to a preliminary code gives a fiscal code whose
/// control character is valid.
pub proof fn lemma_with_control_character(preliminary_code: Seq<char>)
    requires
        is_preliminary_code(preliminary_code),
    ensures
        is_fiscal_code(with_control_character(preliminary_code)),
        has_valid_control_character(with_control_character(preliminary_code)),
        with_control_character(preliminary_code).take(15) == preliminary_code,
{
    lemma_control_character_is_upper(preliminary_code);
    assert(with_control_character(preliminary_code).take(15) =~= preliminary_code);
}

/// The control character is a capital letter.
pub proof fn lemma_control_character_is_upper(code: Seq<char>)
    ensures
        is_upper(control_character(code)),
{
    let rank = checksum(code) % 26;
    assert(0 <= rank < 26);
    lemma_alphabet_letters(rank);
}

/// The checksum of a code is the sum of the odd-place values of the characters at its even
/// indices and of the even-place values of the characters at its odd indices.
pub proof fn lemma_checksum_by_parity(
    code: Seq<char>,
    odd_values: Seq<u32>,
    even_values: Seq<u32>,
)
    requires
        odd_values_of(characters_at(code, 0), odd_values),
        even_values_of(characters_at(code, 1), even_values),
    ensures
        checksum(code) == total(odd_values) + total(even_values),
    decreases code.len(),
{
    if code.len() > 0 {
        let rest = code.drop_last();
        if (code.len() - 1) % 2 == 0 {
            let fewer = odd_values.drop_last();
            assert(characters_at(code, 0).drop_last() =~= characters_at(rest, 0));
            assert(odd_values_of(characters_at(rest, 0), fewer)) by {
                assert forall|i: int| 0 <= i < fewer.len() implies #[trigger] fewer[i]
                    == odd_value(characters_at(rest, 0)[i]) by {
                    assert(fewer[i] == odd_values[i]);
                }
            }
            assert(characters_at(code, 1) == characters_at(rest, 1));
            lemma_checksum_by_parity(rest, fewer, even_values);
            assert(odd_values.last() == odd_value(code.last()));
        } else {
            let fewer = even_values.drop_last();
            assert(characters_at(code, 1).drop_last() =~= characters_at(rest, 1));
            assert(even_values_of(characters_at(rest, 1), fewer)) by {
                assert forall|i: int| 0 <= i < fewer.len() implies #[trigger] fewer[i]
                    == even_value(characters_at(rest, 1)[i]) by {
                    assert(fewer[i] == even_values[i]);
                }
            }
            assert(characters_at(code, 0) == characters_at(rest, 0));
            lemma_checksum_by_parity(rest, odd_values, fewer);
            assert(even_values.last() == even_value(code.last()));
        }
    } else {
        assert(odd_values.len() == 0);
        assert(even_values.len() == 0);
    }
}

/// The characters of a text of letters and digits at the indices of one parity are
/// letters and digits.
proof fn lemma_characters_at_alnum(code: Seq<char>, parity: int)
    requires
        all_alnum(code),
    ensures
        all_alnum(characters_at(code, parity)),
    decreases code.len(),
{
    if code.len() > 0 {
        lemma_characters_at_alnum(code.drop_last(), parity);
    }
}

/// The characters of `chars` at the indices of the given parity.
fn every_other(chars: &Vec<char>, parity: usize) -> (r: Vec<char>)
    requires
        parity <= 1,
    ensures
        r@ == characters_at(chars@, parity as int),
{
    let mut r: Vec<char> = Vec::new();
    let mut i: usize = 0;
    while i < chars.len()
        invariant
            i <= chars.len(),
            parity <= 1,
            r@ == characters_at(chars@.take(i as int), parity as int),
        decreases chars.len() - i,
    {
        proof {
            assert(chars@.take(i + 1).drop_last() =~= chars@.take(i as int));
        }
        if i % 2 == parity {
            r.push(chars[i]);
        }
        i += 1;
    }
    proof {
        assert(chars@.take(i as int) =~= chars@);
    }
    r
}

/// The letter at position `rank` of the alphabet.
fn letter_at(rank: u32) -> (c: char)
    requires
        rank < 26,
    ensures
        c == ALPHABET@[rank as int],
{
    ALPHABET[rank as usize]
}

/// The remainder by 26 of the sum of `values`.
fn sum_modulo_26(values: &Vec<u32>) -> (r: u32)
    requires
        forall|i: int| 0 <= i < values@.len() ==> values@[i] < 26,
    ensures
        r == total(values@) % 26,
{
    let mut sum: u32 = 0;
    let mut i: usize = 0;
    while i < values.len()
        invariant
            i <= values.len(),
            forall|j: int| 0 <= j < values@.len() ==> values@[j] < 26,
            sum < 26,
            sum == total(values@.take(i as int)) % 26,
        decreases values.len() - i,
    {
        proof {
            assert(values@.take(i + 1).drop_last() =~= values@.take(i as int));
        }
        sum = (sum + values[i]) % 26;
        i += 1;
    }
    proof {
        assert(values@.take(i as int) =~= values@);
    }
    sum
}

/// The values of the given characters at even places.
pub fn even_characters_lookup(chars: Vec<char>) -> (values: Vec<u32>)
    requires
        all_alnum(chars@),
    ensures
        even_values_of(chars@, values@),
        forall|i: int| 0 <= i < values@.len() ==> values@[i] < 26,
{
    let mut values: Vec<u32> = Vec::new();
    let mut i: usize = 0;
    while i < chars.len()
        invariant
            i <= chars.len(),
            all_alnum(chars@),
            values@.len() == i,
            forall|j: int| 0 <= j < i ==> #[trigger] values@[j] == even_value(chars@[j]),
            forall|j: int| 0 <= j < i ==> values@[j] < 26,
        decreases chars.len() - i,
    {
        proof {
            assert(is_alnum(chars@[i as int]));
            lemma_values_in_range(chars@[i as int]);
        }
        let c: char = to_ascii_uppercase(chars[i]);
        let value: u32 = if is_ascii_digit(c) {
            digit_to_number(c)
        } else {
            alphabet_position(c)
        };
        values.push(value);
        i += 1;
    }
    values
}

/// The values of the given characters at odd places.
pub fn odd_characters_lookup(chars: Vec<char>) -> (values: Vec<u32>)
    requires
        all_alnum(chars@),
    ensures
        odd_values_of(chars@, values@),
        forall|i: int| 0 <= i < values@.len() ==> values@[i] < 26,
{
    let mut values: Vec<u32> = Vec::new();
    let mut i: usize = 0;
    while i < chars.len()
        invariant
            i <= chars.len(),
            all_alnum(chars@),
            values@.len() == i,
            forall|j: int| 0 <= j < i ==> #[trigger] values@[j] == odd_value(chars@[j]),
            forall|j: int| 0 <= j < i ==> values@[j] < 26,
        decreases chars.len() - i,
    {
        proof {
            assert(is_alnum(chars@[i as int]));
            lemma_values_in_range(chars@[i as int]);
        }
        let c: char = to_ascii_uppercase(chars[i]);
        let index: u32 = if is_ascii_digit(c) {
            digit_to_number(c)
        } else {
            10 + alphabet_position(c)
        };
        assert(index == odd_index(chars@[i as int]));
        values.push(ODD_VALUES[index as usize]);
        i += 1;
    }
    values
}

/// Adding two remainders by 26 gives the remainder of the sum.
proof fn lemma_sum_of_remainders(a: int, b: int)
    ensures
        ((a % 26) + (b % 26)) % 26 == (a + b) % 26,
{
}

/// The control character of `preliminary_code`, a text of ASCII letters and digits.
pub fn get_control_character(preliminary_code: &str) -> (c: char)
    requires
        all_alnum(preliminary_code@),
    ensures
        c == control_character(preliminary_code@),
        is_upper(c),
{
    let chars = chars_of(preliminary_code);
    proof {
        lemma_characters_at_alnum(chars@, 0);
        lemma_characters_at_alnum(chars@, 1);
    }
    let even_characters = every_other(&chars, 1);
    let even_values = even_characters_lookup(even_characters);
    let even_sum: u32 = sum_modulo_26(&even_values);
    let odd_characters = every_other(&chars, 0);
    let odd_values = odd_characters_lookup(odd_characters);
    let odd_sum: u32 = sum_modulo_26(&odd_values);
    let code_sum: u32 = (even_sum + odd_sum) % 26;
    proof {
        lemma_checksum_by_parity(chars@, odd_values@, even_values@);
        lemma_sum_of_remainders(total(even_values@), total(odd_values@));
        assert(code_sum == checksum(chars@) % 26);
        lemma_control_character_is_upper(chars@);
    }
    letter_at(code_sum)
}

} // verus!
