use codicefiscale::tables::{
    alphabet_position, digit_to_number, is_ascii_digit, is_code_character, number_to_digit,
    to_ascii_uppercase,
};
use codicefiscale::text::{chars_of, string_of};

#[test]
fn digits_are_zero_to_nine() {
    for c in "0123456789".chars() {
        assert!(is_ascii_digit(c));
    }
    for c in ['/', ':', 'a', 'A', ' ', '٣', '²'] {
        assert!(!is_ascii_digit(c));
    }
}

#[test]
fn code_characters_are_capitals_and_digits() {
    for c in "0123456789ABCDEFGHIJKLMNOPQRSTUVWXYZ".chars() {
        assert!(is_code_character(c));
    }
    for c in ['a', 'z', '@', '[', '/', ':', ' ', '-', 'È', 'é'] {
        assert!(!is_code_character(c));
    }
}

#[test]
fn uppercase_changes_small_ascii_letters_only() {
    assert_eq!(to_ascii_uppercase('a'), 'A');
    assert_eq!(to_ascii_uppercase('m'), 'M');
    assert_eq!(to_ascii_uppercase('z'), 'Z');
    for c in ['A', 'Z', '0', '9', '`', '{', ' ', 'è', 'ß'] {
        assert_eq!(to_ascii_uppercase(c), c);
    }
}

#[test]
fn uppercase_agrees_with_std_on_all_ascii() {
    for byte in 0u8..128u8 {
        let c = byte as char;
        assert_eq!(to_ascii_uppercase(c), c.to_ascii_uppercase());
    }
}

#[test]
fn digits_and_numbers_correspond() {
    for n in 0u32..10u32 {
        let c = number_to_digit(n);
        assert_eq!(c, char::from_digit(n, 10).unwrap());
        assert_eq!(digit_to_number(c), n);
    }
}

#[test]
fn letters_stand_at_their_positions() {
    assert_eq!(alphabet_position('A'), 0);
    assert_eq!(alphabet_position('B'), 1);
    assert_eq!(alphabet_position('K'), 10);
    assert_eq!(alphabet_position('Z'), 25);
}

#[test]
fn characters_of_a_text_in_order() {
    assert_eq!(chars_of("Rossi"), vec!['R', 'o', 's', 's', 'i']);
    assert_eq!(chars_of(""), Vec::<char>::new());
    assert_eq!(chars_of("è-1"), vec!['è', '-', '1']);
}

#[test]
fn text_of_characters_in_order() {
    assert_eq!(string_of(&vec!['R', 'S', 'S']), "RSS");
    assert_eq!(string_of(&Vec::new()), "");
    assert_eq!(string_of(&chars_of("Nicolò 7")), "Nicolò 7");
}
