//! Vowels and consonants.

use vstd::prelude::*;

verus! {

/// `c` is one of the five vowels, small or capital.
pub open spec fn vowel(c: char) -> bool {
    c == 'a' || c == 'e' || c == 'i' || c == 'o' || c == 'u'
        || c == 'A' || c == 'E' || c == 'I' || c == 'O' || c == 'U'
}

/// `c` is not a vowel. Every character that is no vowel counts as a consonant,
/// whether it is a letter or not.
pub open spec fn consonant(c: char) -> bool {
    !vowel(c)
}

/// Check if the given char is a vowel or not.
pub fn is_vowel(c: &char) -> (r: bool)
    ensures
        r == vowel(*c),
{
    let c: char = *c;
    c == 'a' || c == 'e' || c == 'i' || c == 'o' || c == 'u'
        || c == 'A' || c == 'E' || c == 'I' || c == 'O' || c == 'U'
}

/// Check if the given char is a consonant or not.
pub fn is_consonant(c: &char) -> (r: bool)
    ensures
        r == consonant(*c),
{
    !is_vowel(c)
}

} // verus!
