//! The fiscal code of a person, put together from its parts.

use vstd::prelude::*;
use vstd::string::StringExecFns;
use vstd::utf8::is_ascii_chars;
use chrono::NaiveDate;
use crate::checksum::{
    control_character, get_control_character, has_valid_control_character, is_fiscal_code,
    is_preliminary_code, lemma_with_control_character, with_control_character,
};
use crate::date::{
    date_day, date_month, date_year, day_fragment, day_number, day_of, decimal_text, get_day,
    get_month_letter, get_year, lemma_decimal_of_year, lemma_sex_offset,
    lemma_two_digits_below_100, month_from_number, month_of, two_digit_text, two_digit_value,
    year_fragment, year_of,
};
use crate::homocodic::{generate_homocodic_from_code, homocodic_code};
use crate::location::{is_sentinel, location_fragment};
use crate::models::{City, Nation};
use crate::names::{
    all_letters, extract_name_letters, extract_surname_letters,
    lemma_codes_have_three_characters, lemma_codes_of_letters, name_code, surname_code,
};
use crate::tables::{
    all_code_chars, is_code_char, is_code_character, is_lower, is_upper, month_letter,
};
use crate::text::chars_of;
use crate::{code_view, CodeError, Sex};

verus! {

/// The first fifteen characters of the code of a person: three for the surname, three for
/// the name, two for the year, one for the month, two for the day and the sex, and the
/// location code.
pub open spec fn preliminary_code(
    name: Seq<char>,
    surname: Seq<char>,
    sex: Sex,
    location_code: Seq<char>,
    year: int,
    month: int,
    day: int,
) -> Seq<char> {
    surname_code(surname) + name_code(name) + year_fragment(year) + seq![month_letter(month)]
        + day_fragment(day, sex) + location_code
}

/// The data from which a fiscal code can be made.
///
/// Name and surname are not empty and hold ASCII characters only, and their three-letter
/// codes are made of capital letters and digits, so that no character that is neither
/// letter nor digit has come into them. The year is written in four digits, month and day
/// are those of a calendar date, and the location code is made of four capital letters or
/// digits.
pub open spec fn valid_person(
    name: Seq<char>,
    surname: Seq<char>,
    location_code: Seq<char>,
    year: int,
    month: int,
    day: int,
) -> bool {
    &&& name.len() > 0
    &&& is_ascii_chars(name)
    &&& all_code_chars(name_code(name))
    &&& surname.len() > 0
    &&& is_ascii_chars(surname)
    &&& all_code_chars(surname_code(surname))
    &&& 1000 <= year <= 9999
    &&& 1 <= month <= 12
    &&& 1 <= day <= 31
    &&& location_code.len() == 4
    &&& all_code_chars(location_code)
}

/// The fiscal code of a person: the preliminary code and its control character.
pub open spec fn fiscal_code(
    name: Seq<char>,
    surname: Seq<char>,
    sex: Sex,
    location_code: Seq<char>,
    year: int,
    month: int,
    day: int,
) -> Seq<char> {
    with_control_character(preliminary_code(name, surname, sex, location_code, year, month, day))
}

/// What the generation of a code gives: the fiscal code for valid data, and
/// [`CodeError::InvalidInput`] for any other.
pub open spec fn code_of(
    name: Seq<char>,
    surname: Seq<char>,
    sex: Sex,
    location_code: Seq<char>,
    year: int,
    month: int,
    day: int,
) -> Result<Seq<char>, CodeError> {
    if valid_person(name, surname, location_code, year, month, day) {
        Ok(fiscal_code(name, surname, sex, location_code, year, month, day))
    } else {
        Err(CodeError::InvalidInput)
    }
}

/// Where each part stands in the code of a person.
pub proof fn lemma_code_layout(
    name: Seq<char>,
    surname: Seq<char>,
    sex: Sex,
    location_code: Seq<char>,
    year: int,
    month: int,
    day: int,
)
    requires
        1000 <= year <= 9999,
        1 <= day <= 31,
    ensures
        ({
            let code = fiscal_code(name, surname, sex, location_code, year, month, day);
            &&& code.len() == 12 + location_code.len()
            &&& code.subrange(0, 3) == surname_code(surname)
            &&& code.subrange(3, 6) == name_code(name)
            &&& code.subrange(6, 8) == year_fragment(year)
            &&& code[8] == month_letter(month)
            &&& code.subrange(9, 11) == day_fragment(day, sex)
            &&& code.subrange(11, 11 + location_code.len() as int) == location_code
            &&& code.last() == control_character(code.drop_last())
        }),
{
    let code = fiscal_code(name, surname, sex, location_code, year, month, day);
    lemma_codes_have_three_characters(name);
    lemma_codes_have_three_characters(surname);
    lemma_decimal_of_year(year);
    lemma_two_digits_below_100(day_number(day, sex) as nat);
    assert(code.subrange(0, 3) =~= surname_code(surname));
    assert(code.subrange(3, 6) =~= name_code(name));
    assert(code.subrange(6, 8) =~= year_fragment(year));
    assert(code.subrange(9, 11) =~= day_fragment(day, sex));
    assert(code.subrange(11, 11 + location_code.len() as int) =~= location_code);
    assert(code.drop_last() =~= preliminary_code(
        name,
        surname,
        sex,
        location_code,
        year,
        month,
        day,
    ));
}

/// For a date whose year has four digits, the data are valid exactly if name and surname
/// are not empty and hold ASCII characters only, and the fifteen characters made from the
/// data are capital letters and digits.
pub proof fn lemma_valid_person_by_preliminary_code(
    name: Seq<char>,
    surname: Seq<char>,
    sex: Sex,
    location_code: Seq<char>,
    year: int,
    month: int,
    day: int,
)
    requires
        1000 <= year <= 9999,
        1 <= month <= 12,
        1 <= day <= 31,
    ensures
        valid_person(name, surname, location_code, year, month, day) <==> {
            &&& name.len() > 0
            &&& is_ascii_chars(name)
            &&& surname.len() > 0
            &&& is_ascii_chars(surname)
            &&& is_preliminary_code(
                preliminary_code(name, surname, sex, location_code, year, month, day),
            )
        },
{
    let payload = preliminary_code(name, surname, sex, location_code, year, month, day);
    lemma_codes_have_three_characters(name);
    lemma_codes_have_three_characters(surname);
    lemma_decimal_of_year(year);
    lemma_two_digits_below_100(day_number(day, sex) as nat);
    assert(payload.len() == 11 + location_code.len());
    if is_preliminary_code(payload) {
        assert forall|i: int| 0 <= i < 3 implies is_code_char(
            #[trigger] surname_code(surname)[i],
        ) by {
            assert(surname_code(surname)[i] == payload[i]);
        }
        assert forall|i: int| 0 <= i < 3 implies is_code_char(#[trigger] name_code(name)[i]) by {
            assert(name_code(name)[i] == payload[i + 3]);
        }
        assert forall|i: int| 0 <= i < 4 implies is_code_char(#[trigger] location_code[i]) by {
            assert(location_code[i] == payload[i + 11]);
        }
    }
    if all_code_chars(surname_code(surname)) && all_code_chars(name_code(name))
        && location_code.len() == 4 && all_code_chars(location_code) {
        assert forall|i: int| 0 <= i < 15 implies is_code_char(#[trigger] payload[i]) by {
            if i < 3 {
                assert(payload[i] == surname_code(surname)[i]);
            } else if i < 6 {
                assert(payload[i] == name_code(name)[i - 3]);
            } else if i < 8 {
                assert(payload[i] == year_fragment(year)[i - 6]);
            } else if i < 9 {
                assert(payload[i] == month_letter(month));
            } else if i < 11 {
                assert(payload[i] == day_fragment(day, sex)[i - 9]);
                assert(is_code_char(day_fragment(day, sex)[i - 9]));
            } else {
                assert(payload[i] == location_code[i - 11]);
            }
        }
    }
}

/// Names and surnames of ASCII letters, a year of four digits and a location code of four
/// capital letters or digits always give a code.
pub proof fn lemma_letters_give_a_code(
    name: Seq<char>,
    surname: Seq<char>,
    sex: Sex,
    location_code: Seq<char>,
    year: int,
    month: int,
    day: int,
)
    requires
        name.len() > 0,
        all_letters(name),
        surname.len() > 0,
        all_letters(surname),
        1000 <= year <= 9999,
        1 <= month <= 12,
        1 <= day <= 31,
        location_code.len() == 4,
        all_code_chars(location_code),
    ensures
        valid_person(name, surname, location_code, year, month, day),
        code_of(name, surname, sex, location_code, year, month, day) is Ok,
{
    lemma_codes_of_letters(name);
    lemma_codes_of_letters(surname);
    assert(is_ascii_chars(name)) by {
        assert forall|i: int| 0 <= i < name.len() implies '\0' <= #[trigger] name[i]
            <= '\u{7f}' by {
            assert(is_upper(name[i]) || is_lower(name[i]));
        }
    }
    assert(is_ascii_chars(surname)) by {
        assert forall|i: int| 0 <= i < surname.len() implies '\0' <= #[trigger] surname[i]
            <= '\u{7f}' by {
            assert(is_upper(surname[i]) || is_lower(surname[i]));
        }
    }
}

/// The code of valid data has sixteen characters, each a capital letter or a digit, and
/// its last character is the control character of the fifteen before it.
pub proof fn lemma_code_is_fiscal_code(
    name: Seq<char>,
    surname: Seq<char>,
    sex: Sex,
    location_code: Seq<char>,
    year: int,
    month: int,
    day: int,
)
    requires
        valid_person(name, surname, location_code, year, month, day),
    ensures
        is_fiscal_code(fiscal_code(name, surname, sex, location_code, year, month, day)),
        has_valid_control_character(
            fiscal_code(name, surname, sex, location_code, year, month, day),
        ),
{
    lemma_valid_person_by_preliminary_code(name, surname, sex, location_code, year, month, day);
    lemma_with_control_character(
        preliminary_code(name, surname, sex, location_code, year, month, day),
    );
}

/// The same data always give the same outcome: two results that both are what the
/// generation gives for some data hold the same code, or the same error.
pub proof fn lemma_code_is_determined(
    first: Result<String, CodeError>,
    second: Result<String, CodeError>,
    name: Seq<char>,
    surname: Seq<char>,
    sex: Sex,
    location_code: Seq<char>,
    year: int,
    month: int,
    day: int,
)
    requires
        code_view(first) == code_of(name, surname, sex, location_code, year, month, day),
        code_view(second) == code_of(name, surname, sex, location_code, year, month, day),
    ensures
        code_view(first) == code_view(second),
        first is Ok <==> second is Ok,
        first is Ok ==> first->Ok_0@ == second->Ok_0@,
        first is Err ==> first->Err_0 == second->Err_0,
{
}

/// A man and a woman with the same name, surname, birth date and birth place have codes
/// that differ in the day part and, with it, in the control character, and nowhere else:
/// the day part of the woman's code writes the number that the man's writes, and 40 more.
/// Whether a code can be made does not depend on the sex.
pub proof fn lemma_codes_of_both_sexes(
    name: Seq<char>,
    surname: Seq<char>,
    location_code: Seq<char>,
    year: int,
    month: int,
    day: int,
)
    requires
        1000 <= year <= 9999,
        1 <= day <= 31,
    ensures
        ({
            let man = fiscal_code(name, surname, Sex::M, location_code, year, month, day);
            let woman = fiscal_code(name, surname, Sex::F, location_code, year, month, day);
            &&& two_digit_value(man.subrange(9, 11)) == day
            &&& two_digit_value(woman.subrange(9, 11)) == two_digit_value(man.subrange(9, 11))
                + 40
            &&& man.subrange(0, 9) == woman.subrange(0, 9)
            &&& man.subrange(11, 11 + location_code.len() as int) == woman.subrange(
                11,
                11 + location_code.len() as int,
            )
            &&& code_of(name, surname, Sex::M, location_code, year, month, day) is Ok
                <==> code_of(name, surname, Sex::F, location_code, year, month, day) is Ok
        }),
{
    let man = fiscal_code(name, surname, Sex::M, location_code, year, month, day);
    let woman = fiscal_code(name, surname, Sex::F, location_code, year, month, day);
    lemma_code_layout(name, surname, Sex::M, location_code, year, month, day);
    lemma_code_layout(name, surname, Sex::F, location_code, year, month, day);
    lemma_sex_offset(day);
    lemma_codes_have_three_characters(name);
    lemma_codes_have_three_characters(surname);
    lemma_decimal_of_year(year);
    assert(man.subrange(0, 9) =~= woman.subrange(0, 9));
}

/// Whether `text` has the form of a preliminary code.
fn has_preliminary_form(text: &str) -> (r: bool)
    ensures
        r == is_preliminary_code(text@),
{
    let chars = chars_of(text);
    if chars.len() != 15 {
        return false;
    }
    let mut i: usize = 0;
    while i < chars.len()
        invariant
            i <= chars.len(),
            chars@ == text@,
            forall|j: int| 0 <= j < i ==> is_code_char(#[trigger] chars@[j]),
        decreases chars.len() - i,
    {
        if !is_code_character(chars[i]) {
            return false;
        }
        i += 1;
    }
    true
}

/// Generate the code of a person whose birth date is given by its year, month and day, and
/// whose birth place is given by its location code.
///
/// Data from which no code can be made are refused as [`CodeError::InvalidInput`].
pub fn generate_code_from_parts(
    name: &str,
    surname: &str,
    sex: Sex,
    location_code: &str,
    year: i32,
    month: u32,
    day: u32,
) -> (r: Result<String, CodeError>)
    ensures
        code_view(r) == code_of(
            name@,
            surname@,
            sex,
            location_code@,
            year as int,
            month as int,
            day as int,
        ),
        r is Ok ==> is_fiscal_code(r->Ok_0@) && has_valid_control_character(r->Ok_0@),
{
    if name.is_empty() || surname.is_empty() || !name.is_ascii() || !surname.is_ascii() {
        return Err(CodeError::InvalidInput);
    }
    if year < 1000 || year > 9999 || month < 1 || month > 12 || day < 1 || day > 31 {
        return Err(CodeError::InvalidInput);
    }
    let born_month = match month_from_number(month as u8) {
        Ok(born_month) => born_month,
        Err(_) => {
            return Err(CodeError::InvalidInput);
        },
    };
    let name_code = extract_name_letters(name);
    let surname_code = extract_surname_letters(surname);
    proof {
        lemma_decimal_of_year(year as int);
    }
    let year_text = decimal_text(year as u32);
    let year_code = get_year(year_text.as_str());
    let month_code: char = get_month_letter(&born_month);
    let day_code = two_digit_text(get_day(day, sex));
    let mut preliminary_code = surname_code;
    preliminary_code.append(name_code.as_str());
    preliminary_code.append(year_code.as_str());
    preliminary_code.push(month_code);
    preliminary_code.append(day_code.as_str());
    preliminary_code.append(location_code);
    proof {
        assert(preliminary_code@ =~= self::preliminary_code(
            name@,
            surname@,
            sex,
            location_code@,
            year as int,
            month as int,
            day as int,
        ));
        lemma_valid_person_by_preliminary_code(
            name@,
            surname@,
            sex,
            location_code@,
            year as int,
            month as int,
            day as int,
        );
    }
    if !has_preliminary_form(preliminary_code.as_str()) {
        return Err(CodeError::InvalidInput);
    }
    proof {
        lemma_with_control_character(preliminary_code@);
    }
    let check_code: char = get_control_character(preliminary_code.as_str());
    preliminary_code.push(check_code);
    Ok(preliminary_code)
}

/// Generate the code with the given data.
///
/// The location code is that of the city where the nation bears the sentinel code, and
/// that of the nation else. Data from which no code can be made are refused as
/// [`CodeError::InvalidInput`].
pub fn generate_code(
    name: String,
    surname: String,
    sex: Sex,
    birth_nation: Nation,
    birth_city: City,
    birth_date: NaiveDate,
) -> (r: Result<String, CodeError>)
    ensures
        code_view(r) == code_of(
            name@,
            surname@,
            sex,
            location_fragment(birth_nation.nation_code@, birth_city.city_code@),
            date_year(birth_date),
            date_month(birth_date),
            date_day(birth_date),
        ),
        r is Ok ==> is_fiscal_code(r->Ok_0@) && has_valid_control_character(r->Ok_0@),
{
    let year: i32 = year_of(&birth_date);
    let month: u32 = month_of(&birth_date);
    let day: u32 = day_of(&birth_date);
    let location_code = if is_sentinel(birth_nation.nation_code.as_str()) {
        birth_city.city_code
    } else {
        birth_nation.nation_code
    };
    generate_code_from_parts(
        name.as_str(),
        surname.as_str(),
        sex,
        location_code.as_str(),
        year,
        month,
        day,
    )
}

/// The codes computed for one request.
#[derive(Clone, Debug)]
pub struct GeneratedCodes {
    /// The fiscal code.
    pub code: String,
    /// Its homocodic variant, where one was asked for.
    pub homocodic_code: Option<String>,
}

/// Whether `variant` is what was asked for with `substitution_depth`: nothing where no
/// depth was given, else the homocodic variant of `code` of that depth.
pub open spec fn homocodic_as_asked(
    code: Seq<char>,
    substitution_depth: Option<u32>,
    variant: Option<String>,
) -> bool {
    match substitution_depth {
        None => variant is None,
        Some(depth) => variant matches Some(homocodic) && homocodic@ == homocodic_code(
            code,
            depth as nat,
        ),
    }
}

/// Generate the code of a person from the nations and the cities that a search for the
/// birth place has found, and its homocodic variant where a depth is given.
///
/// The first nation and the first city count. Where no nation or no city was found, the
/// request is refused as [`CodeError::LookupNotFound`], whatever the other data are.
pub fn generate_codes(
    name: String,
    surname: String,
    sex: Sex,
    nations: Vec<Nation>,
    cities: Vec<City>,
    birth_date: NaiveDate,
    substitution_depth: Option<u32>,
) -> (r: Result<GeneratedCodes, CodeError>)
    ensures
        cities@.len() == 0 || nations@.len() == 0 ==> r is Err && r->Err_0
            == CodeError::LookupNotFound,
        cities@.len() > 0 && nations@.len() > 0 ==> ({
            let expected = code_of(
                name@,
                surname@,
                sex,
                location_fragment(nations@[0].nation_code@, cities@[0].city_code@),
                date_year(birth_date),
                date_month(birth_date),
                date_day(birth_date),
            );
            match r {
                Ok(codes) => expected == Ok::<Seq<char>, CodeError>(codes.code@)
                    && homocodic_as_asked(codes.code@, substitution_depth, codes.homocodic_code),
                Err(e) => expected == Err::<Seq<char>, CodeError>(e),
            }
        }),
{
    let mut cities = cities;
    let mut nations = nations;
    if cities.len() == 0 || nations.len() == 0 {
        return Err(CodeError::LookupNotFound);
    }
    let city = cities.remove(0);
    let nation = nations.remove(0);
    let code = match generate_code(name, surname, sex, nation, city, birth_date) {
        Ok(code) => code,
        Err(e) => {
            return Err(e);
        },
    };
    let homocodic_code = match substitution_depth {
        Some(depth) => match generate_homocodic_from_code(code.as_str(), depth) {
            Ok(homocodic) => Some(homocodic),
            Err(e) => {
                return Err(e);
            },
        },
        None => None,
    };
    Ok(GeneratedCodes { code, homocodic_code })
}

} // verus!
