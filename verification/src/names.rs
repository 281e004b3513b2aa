//! The three-letter codes of a surname and of a given name.

use vstd::prelude::*;
use crate::tables::{
    all_code_chars, is_code_char, is_lower, is_upper, to_ascii_uppercase, to_upper, uppercase,
};
use crate::text::{chars_of, string_of};
use crate::utils::{consonant, is_consonant, is_vowel, vowel};

verus! {

/// The consonants of `text`, in their order. Whatever is no vowel counts as a consonant.
pub open spec fn consonants_of(text: Seq<char>) -> Seq<char> {
    text.filter(|c: char| consonant(c))
}

/// The vowels of `text`, in their order.
pub open spec fn vowels_of(text: Seq<char>) -> Seq<char> {
    text.filter(|c: char| vowel(c))
}

/// The first three of `letters`; where there are fewer, `X` fills the places up to three.
pub open spec fn first_three(letters: Seq<char>) -> Seq<char> {
    Seq::new(
        3,
        |i: int|
            if i < letters.len() {
                letters[i]
            } else {
                'X'
            },
    )
}

/// The code of a surname: the first three of its consonants followed by its vowels,
/// filled up with `X`, in capitals.
pub open spec fn surname_code(text: Seq<char>) -> Seq<char> {
    uppercase(first_three(consonants_of(text) + vowels_of(text)))
}

/// The code of a given name. A name of more than three consonants gives its first, third
/// and fourth consonant; any other name is encoded as a surname is.
pub open spec fn name_code(text: Seq<char>) -> Seq<char> {
    let consonants = consonants_of(text);
    if consonants.len() > 3 {
        uppercase(seq![consonants[0], consonants[2], consonants[3]])
    } else {
        surname_code(text)
    }
}

/// Both codes have three characters.
pub proof fn lemma_codes_have_three_characters(text: Seq<char>)
    ensures
        surname_code(text).len() == 3,
        name_code(text).len() == 3,
{
}

/// `text` is made of ASCII letters only.
pub open spec fn all_letters(text: Seq<char>) -> bool {
    forall|i: int| 0 <= i < text.len() ==> is_upper(#[trigger] text[i]) || is_lower(text[i])
}

/// The codes of a text of ASCII letters are made of capital letters, so they may stand in
/// a fiscal code.
pub proof fn lemma_codes_of_letters(text: Seq<char>)
    requires
        all_letters(text),
    ensures
        all_code_chars(surname_code(text)),
        all_code_chars(name_code(text)),
{
    let consonants = consonants_of(text);
    let vowels = vowels_of(text);
    let letters = consonants + vowels;
    assert forall|i: int| 0 <= i < letters.len() implies is_upper(#[trigger] letters[i])
        || is_lower(letters[i]) by {
        if i < consonants.len() {
            assert(consonants.contains(consonants[i]));
            text.lemma_filter_contains_rev(|c: char| consonant(c), consonants[i]);
        } else {
            let j = i - consonants.len();
            assert(vowels.contains(vowels[j]));
            text.lemma_filter_contains_rev(|c: char| vowel(c), vowels[j]);
        }
    }
    assert forall|i: int| 0 <= i < 3 implies is_code_char(#[trigger] surname_code(text)[i]) by {
        if i < letters.len() {
            assert(is_upper(letters[i]) || is_lower(letters[i]));
        }
    }
    if consonants.len() > 3 {
        assert forall|i: int| 0 <= i < 3 implies is_code_char(#[trigger] name_code(text)[i]) by {
            let k = if i == 0 { 0int } else { i + 1 };
            assert(letters[k] == consonants[k]);
            assert(is_upper(letters[k]) || is_lower(letters[k]));
        }
    }
}

/// A name of more than three consonants is encoded by its first, third and fourth
/// consonant, whatever its vowels and its other consonants are.
pub proof fn lemma_long_name_rule(text: Seq<char>)
    requires
        consonants_of(text).len() > 3,
    ensures
        name_code(text) =~= seq![
            to_upper(consonants_of(text)[0]),
            to_upper(consonants_of(text)[2]),
            to_upper(consonants_of(text)[3]),
        ],
{
}

/// How the consonants and the vowels of a text grow as the text grows by one character.
proof fn lemma_selection_step(text: Seq<char>, i: int)
    requires
        0 <= i < text.len(),
    ensures
        consonants_of(text.take(0)) == Seq::<char>::empty(),
        vowels_of(text.take(0)) == Seq::<char>::empty(),
        consonants_of(text.take(i + 1)) == if consonant(text[i]) {
            consonants_of(text.take(i)).push(text[i])
        } else {
            consonants_of(text.take(i))
        },
        vowels_of(text.take(i + 1)) == if vowel(text[i]) {
            vowels_of(text.take(i)).push(text[i])
        } else {
            vowels_of(text.take(i))
        },
{
    reveal(Seq::filter);
    assert(text.take(i + 1).drop_last() =~= text.take(i));
}

/// The consonants of `chars`, in their order.
fn consonants(chars: &Vec<char>) -> (r: Vec<char>)
    ensures
        r@ == consonants_of(chars@),
{
    let mut r: Vec<char> = Vec::new();
    let mut i: usize = 0;
    proof {
        reveal(Seq::filter);
    }
    while i < chars.len()
        invariant
            i <= chars.len(),
            r@ == consonants_of(chars@.take(i as int)),
        decreases chars.len() - i,
    {
        proof {
            lemma_selection_step(chars@, i as int);
        }
        if is_consonant(&chars[i]) {
            r.push(chars[i]);
        }
        i += 1;
    }
    proof {
        assert(chars@.take(i as int) =~= chars@);
    }
    r
}

/// The vowels of `chars`, in their order.
fn vowels(chars: &Vec<char>) -> (r: Vec<char>)
    ensures
        r@ == vowels_of(chars@),
{
    let mut r: Vec<char> = Vec::new();
    let mut i: usize = 0;
    proof {
        reveal(Seq::filter);
    }
    while i < chars.len()
        invariant
            i <= chars.len(),
            r@ == vowels_of(chars@.take(i as int)),
        decreases chars.len() - i,
    {
        proof {
            lemma_selection_step(chars@, i as int);
        }
        if is_vowel(&chars[i]) {
            r.push(chars[i]);
        }
        i += 1;
    }
    proof {
        assert(chars@.take(i as int) =~= chars@);
    }
    r
}

/// The first three of `letters` in capitals, filled up with `X`.
fn pad_and_capitalise(letters: &Vec<char>) -> (r: Vec<char>)
    ensures
        r@ == uppercase(first_three(letters@)),
{
    let mut r: Vec<char> = Vec::new();
    let mut i: usize = 0;
    while i < 3
        invariant
            i <= 3,
            r@.len() == i,
            forall|j: int| 0 <= j < i ==> r@[j] == to_upper(first_three(letters@)[j]),
        decreases 3 - i,
    {
        if i < letters.len() {
            r.push(to_ascii_uppercase(letters[i]));
        } else {
            r.push('X');
        }
        i += 1;
    }
    proof {
        assert(r@ =~= uppercase(first_three(letters@)));
    }
    r
}

/// The three-letter code of the surname `name`.
pub fn extract_surname_letters(name: &str) -> (code: String)
    requires
        name@.len() > 0,
    ensures
        code@ == surname_code(name@),
{
    let chars = chars_of(name);
    let mut letters = consonants(&chars);
    let mut name_vowels = vowels(&chars);
    letters.append(&mut name_vowels);
    let code = pad_and_capitalise(&letters);
    string_of(&code)
}

/// The three-letter code of the given name `name`.
pub fn extract_name_letters(name: &str) -> (code: String)
    requires
        name@.len() > 0,
    ensures
        code@ == name_code(name@),
{
    let chars = chars_of(name);
    let mut name_consonants = consonants(&chars);
    if name_consonants.len() <= 3 {
        let mut name_vowels = vowels(&chars);
        name_consonants.append(&mut name_vowels);
        let code = pad_and_capitalise(&name_consonants);
        string_of(&code)
    } else {
        let mut code: Vec<char> = Vec::new();
        code.push(to_ascii_uppercase(name_consonants[0]));
        code.push(to_ascii_uppercase(name_consonants[2]));
        code.push(to_ascii_uppercase(name_consonants[3]));
        proof {
            assert(code@ =~= name_code(name@));
        }
        string_of(&code)
    }
}

} // verus!
