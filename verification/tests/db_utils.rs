use codicefiscale::db_utils::{
    first_db_check_step, next_db_check_step, normalize_nation, prepare_cities, prepare_nations,
    DbCheckStep, DbError, DbObservation,
};
use codicefiscale::models::{NewCity, NewLoadedCity, NewLoadedNation, NewNation};

fn loaded_nation(initials: &str, code: &str, name: &str) -> NewLoadedNation {
    NewLoadedNation {
        nation_initials: initials.to_string(),
        nation_code: code.to_string(),
        nation_name: name.to_string(),
        citizen_name: format!("{name} (cittadinanza)"),
    }
}

fn loaded_city(name: &str, code: &str) -> NewLoadedCity {
    NewLoadedCity {
        province_initials: "RM".to_string(),
        istat_code: "058091".to_string(),
        mixed_city_name: name.to_string(),
        city_name: name.to_string(),
        alternative_city_name: "".to_string(),
        is_province: "1".to_string(),
        city_code: code.to_string(),
        lat: "41.89".to_string(),
        lon: "12.48".to_string(),
        surface: "1287.36".to_string(),
        overmunicipal_code: "258".to_string(),
    }
}

#[test]
fn check_begins_with_the_file() {
    assert_eq!(first_db_check_step(), DbCheckStep::ReadDatabaseFile);
    assert_eq!(first_db_check_step().result(), None);
}

#[test]
fn unreadable_file_ends_the_check() {
    let step = next_db_check_step(DbObservation::DatabaseFile { readable: false });
    assert_eq!(step, DbCheckStep::Failed(DbError::NotExist));
    assert_eq!(step.result(), Some(Err(DbError::NotExist)));
}

#[test]
fn readable_file_leads_to_the_cities() {
    let step = next_db_check_step(DbObservation::DatabaseFile { readable: true });
    assert_eq!(step, DbCheckStep::CountCities);
    assert_eq!(step.result(), None);
}

#[test]
fn empty_table_of_cities_ends_the_check() {
    for count in [0i64, -1i64, i64::MIN] {
        let step = next_db_check_step(DbObservation::CitiesCount(count));
        assert_eq!(step, DbCheckStep::Failed(DbError::CitiesTableEmpty));
    }
}

#[test]
fn cities_lead_to_the_nations() {
    for count in [1i64, 7904i64, i64::MAX] {
        assert_eq!(next_db_check_step(DbObservation::CitiesCount(count)), DbCheckStep::CountNations);
    }
    assert_eq!(DbCheckStep::CountNations.result(), None);
}

#[test]
fn empty_table_of_nations_ends_the_check() {
    for count in [0i64, -5i64] {
        let step = next_db_check_step(DbObservation::NationsCount(count));
        assert_eq!(step, DbCheckStep::Failed(DbError::NationsTableEmpty));
        assert_eq!(step.result(), Some(Err(DbError::NationsTableEmpty)));
    }
}

#[test]
fn nations_end_the_check_well() {
    let step = next_db_check_step(DbObservation::NationsCount(1));
    assert_eq!(step, DbCheckStep::Passed);
    assert_eq!(step.result(), Some(Ok(())));
}

#[test]
fn errors_have_their_words() {
    assert_eq!(DbError::NotExist.message(), "Database connection error");
    assert_eq!(DbError::CitiesTableEmpty.message(), "Cities table empty!");
    assert_eq!(DbError::NationsTableEmpty.message(), "Nations table empty!");
}

#[test]
fn nation_without_code_gets_the_sentinel() {
    let nation = normalize_nation(NewNation { nation_name: "Italia".to_string(), nation_code: "".to_string() });
    assert_eq!(nation.nation_name, "Italia");
    assert_eq!(nation.nation_code, "0000");
}

#[test]
fn nation_with_code_keeps_it() {
    let nation = normalize_nation(NewNation { nation_name: "Francia".to_string(), nation_code: "Z110".to_string() });
    assert_eq!(nation.nation_name, "Francia");
    assert_eq!(nation.nation_code, "Z110");
    let blank = normalize_nation(NewNation { nation_name: "Altrove".to_string(), nation_code: " ".to_string() });
    assert_eq!(blank.nation_code, " ");
}

#[test]
fn normalizing_twice_changes_nothing() {
    let once = normalize_nation(NewNation { nation_name: "Italia".to_string(), nation_code: "".to_string() });
    let twice = normalize_nation(once.clone());
    assert_eq!(twice.nation_code, once.nation_code);
    assert_eq!(twice.nation_name, once.nation_name);
}

#[test]
fn loaded_nations_are_prepared_in_order() {
    let nations = prepare_nations(vec![
        loaded_nation("IT", "", "Italia"),
        loaded_nation("FR", "Z110", "Francia"),
        loaded_nation("XX", "", "Senza codice"),
    ]);
    let seen: Vec<(String, String)> = nations.into_iter().map(|n| (n.nation_name, n.nation_code)).collect();
    assert_eq!(
        seen,
        vec![
            ("Italia".to_string(), "0000".to_string()),
            ("Francia".to_string(), "Z110".to_string()),
            ("Senza codice".to_string(), "0000".to_string()),
        ]
    );
}

#[test]
fn loaded_cities_are_prepared_in_order() {
    let cities = prepare_cities(vec![loaded_city("Roma", "H501"), loaded_city("Milano", "F205"), loaded_city("Ignota", "")]);
    let seen: Vec<(String, String)> = cities.into_iter().map(|c| (c.city_name, c.city_code)).collect();
    assert_eq!(
        seen,
        vec![
            ("Roma".to_string(), "H501".to_string()),
            ("Milano".to_string(), "F205".to_string()),
            ("Ignota".to_string(), "".to_string()),
        ]
    );
}

#[test]
fn nothing_loaded_gives_nothing() {
    assert!(prepare_nations(Vec::new()).is_empty());
    assert!(prepare_cities(Vec::new()).is_empty());
}

#[test]
fn new_city_keeps_name_and_code() {
    let city = NewCity::from(loaded_city("Roma", "H501"));
    assert_eq!(city.city_name, "Roma");
    assert_eq!(city.city_code, "H501");
}

#[test]
fn new_nation_keeps_name_and_code() {
    let nation = NewNation::from(loaded_nation("FR", "Z110", "Francia"));
    assert_eq!(nation.nation_name, "Francia");
    assert_eq!(nation.nation_code, "Z110");
    let italy = NewNation::from(loaded_nation("IT", "", "Italia"));
    assert_eq!(italy.nation_code, "");
}
