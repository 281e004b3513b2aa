use codicefiscale::checksum::get_control_character;
use codicefiscale::homocodic::generate_homocodic_preliminary_code;
use codicefiscale::{generate_homocodic_from_code, CodeError};

#[test]
fn depth_zero_gives_the_code_back() {
    assert_eq!(generate_homocodic_from_code("RSSMRA80D25H501P", 0), Ok("RSSMRA80D25H501P".to_string()));
    assert_eq!(generate_homocodic_from_code("MRTMTT91D08F205J", 0), Ok("MRTMTT91D08F205J".to_string()));
}

#[test]
fn depth_zero_mends_a_wrong_control_character() {
    assert_eq!(generate_homocodic_from_code("RSSMRA80D25H501A", 0), Ok("RSSMRA80D25H501P".to_string()));
}

#[test]
fn digits_are_replaced_from_the_right() {
    let code = "RSSMRA80D25H501P";
    assert_eq!(generate_homocodic_from_code(code, 1), Ok("RSSMRA80D25H50MH".to_string()));
    assert_eq!(generate_homocodic_from_code(code, 2), Ok("RSSMRA80D25H5LMS".to_string()));
    assert_eq!(generate_homocodic_from_code(code, 3), Ok("RSSMRA80D25HRLMN".to_string()));
    assert_eq!(generate_homocodic_from_code(code, 4), Ok("RSSMRA80D2RHRLMI".to_string()));
    assert_eq!(generate_homocodic_from_code(code, 5), Ok("RSSMRA80DNRHRLMT".to_string()));
    assert_eq!(generate_homocodic_from_code(code, 6), Ok("RSSMRA8LDNRHRLME".to_string()));
    assert_eq!(generate_homocodic_from_code(code, 7), Ok("RSSMRAULDNRHRLMB".to_string()));
}

#[test]
fn depth_beyond_the_digits_changes_nothing_more() {
    let code = "RSSMRA80D25H501P";
    let all = generate_homocodic_from_code(code, 7);
    assert_eq!(generate_homocodic_from_code(code, 8), all);
    assert_eq!(generate_homocodic_from_code(code, 100), all);
    assert_eq!(generate_homocodic_from_code(code, u32::MAX), all);
}

#[test]
fn homocodic_of_homocodic_goes_on_with_the_digits_left() {
    assert_eq!(generate_homocodic_from_code("RSSMRA80D25H50MH", 1), Ok("RSSMRA80D25H5LMS".to_string()));
    assert_eq!(generate_homocodic_from_code("RSSMRAULDNRHRLMB", 5), Ok("RSSMRAULDNRHRLMB".to_string()));
}

#[test]
fn control_character_of_homocodic_is_valid() {
    for depth in 0u32..9u32 {
        let homocodic = generate_homocodic_from_code("BNCRRT75T01F205R", depth).unwrap();
        assert_eq!(homocodic.len(), 16);
        assert_eq!(homocodic.chars().last().unwrap(), get_control_character(&homocodic[0..15]));
    }
}

#[test]
fn code_of_wrong_length_is_malformed() {
    assert_eq!(generate_homocodic_from_code("", 1), Err(CodeError::MalformedCode));
    assert_eq!(generate_homocodic_from_code("RSSMRA80D25H501", 1), Err(CodeError::MalformedCode));
    assert_eq!(generate_homocodic_from_code("RSSMRA80D25H501PP", 1), Err(CodeError::MalformedCode));
    assert_eq!(generate_homocodic_from_code("RSSMRA80D25H501", 0), Err(CodeError::MalformedCode));
}

#[test]
fn code_with_other_characters_is_malformed() {
    assert_eq!(generate_homocodic_from_code("rssmra80d25h501p", 1), Err(CodeError::MalformedCode));
    assert_eq!(generate_homocodic_from_code("RSSMRA80D25H501p", 0), Err(CodeError::MalformedCode));
    assert_eq!(generate_homocodic_from_code("RSSMRA80D25H5-1P", 1), Err(CodeError::MalformedCode));
    assert_eq!(generate_homocodic_from_code("RSSMRA80D25 501P", 1), Err(CodeError::MalformedCode));
    assert_eq!(generate_homocodic_from_code("RSSMRÀ80D25H501P", 1), Err(CodeError::MalformedCode));
    assert_eq!(generate_homocodic_from_code("ÀÀÀÀÀÀÀÀ", 1), Err(CodeError::MalformedCode));
}

#[test]
fn each_digit_has_its_letter() {
    assert_eq!(generate_homocodic_preliminary_code("0123456789", 10), "LMNPQRSTUV");
}

#[test]
fn preliminary_substitution_spends_depth_on_digits_only() {
    assert_eq!(generate_homocodic_preliminary_code("A1B2", 0), "A1B2");
    assert_eq!(generate_homocodic_preliminary_code("A1B2", 1), "A1BN");
    assert_eq!(generate_homocodic_preliminary_code("A1B2", 2), "AMBN");
    assert_eq!(generate_homocodic_preliminary_code("A1B2", 3), "AMBN");
    assert_eq!(generate_homocodic_preliminary_code("1ABCDEFG", 1), "MABCDEFG");
}

#[test]
fn preliminary_substitution_leaves_other_text_alone() {
    assert_eq!(generate_homocodic_preliminary_code("", 5), "");
    assert_eq!(generate_homocodic_preliminary_code("abc-è", 5), "abc-è");
    assert_eq!(generate_homocodic_preliminary_code("a1-è2", 1), "a1-èN");
}

#[test]
fn preliminary_substitution_takes_any_length() {
    assert_eq!(generate_homocodic_preliminary_code("RSSMRA80D25H501", 3), "RSSMRA80D25HRLM");
    assert_eq!(
        generate_homocodic_preliminary_code("00000000000000000000", 19),
        "0LLLLLLLLLLLLLLLLLLL"
    );
}
