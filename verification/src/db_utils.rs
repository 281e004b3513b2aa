//! What is decided about the database of nations and cities: whether it can be used, and
//! how the records of the reference data are prepared for it. Reading files and talking
//! to the database is left to the caller.

use vstd::prelude::*;
use crate::location::{sentinel, sentinel_code};
use crate::models::{NewCity, NewLoadedCity, NewLoadedNation, NewNation};

verus! {

/// Why the database cannot be used.
#[derive(Copy, Clone, Debug, PartialEq, Eq, Structural)]
pub enum DbError {
    /// The file of the database cannot be read.
    NotExist,
    /// The table of cities holds no record.
    CitiesTableEmpty,
    /// The table of nations holds no record.
    NationsTableEmpty,
}

impl DbError {
    /// The words that tell the error.
    pub open spec fn message_text(self) -> Seq<char> {
        match self {
            DbError::NotExist => "Database connection error"@,
            DbError::CitiesTableEmpty => "Cities table empty!"@,
            DbError::NationsTableEmpty => "Nations table empty!"@,
        }
    }

    /// The words that tell the error.
    pub fn message(&self) -> (text: String)
        ensures
            text@ == self.message_text(),
    {
        match self {
            DbError::NotExist => "Database connection error".to_owned(),
            DbError::CitiesTableEmpty => "Cities table empty!".to_owned(),
            DbError::NationsTableEmpty => "Nations table empty!".to_owned(),
        }
    }
}

/// What the caller has found out about the database.
#[derive(Copy, Clone, Debug, PartialEq, Eq, Structural)]
pub enum DbObservation {
    /// Whether the file of the database could be read.
    DatabaseFile { readable: bool },
    /// The number of records in the table of cities.
    CitiesCount(i64),
    /// The number of records in the table of nations.
    NationsCount(i64),
}

/// What the caller has to do next while the database is checked.
#[derive(Copy, Clone, Debug, PartialEq, Eq, Structural)]
pub enum DbCheckStep {
    /// Try to read the file of the database.
    ReadDatabaseFile,
    /// Count the records of the table of cities.
    CountCities,
    /// Count the records of the table of nations.
    CountNations,
    /// The check is over: the database can be used.
    Passed,
    /// The check is over: the database cannot be used, for this reason.
    Failed(DbError),
}

impl DbCheckStep {
    /// The outcome of the check, once it is over.
    pub open spec fn outcome(self) -> Option<Result<(), DbError>> {
        match self {
            DbCheckStep::Passed => Some(Ok(())),
            DbCheckStep::Failed(error) => Some(Err(error)),
            _ => None,
        }
    }

    /// The outcome of the check, once it is over; `None` while there is a step to take.
    pub fn result(&self) -> (r: Option<Result<(), DbError>>)
        ensures
            r == self.outcome(),
    {
        match self {
            DbCheckStep::Passed => Some(Ok(())),
            DbCheckStep::Failed(error) => Some(Err(*error)),
            _ => None,
        }
    }
}

/// The step that follows an observation. A file that cannot be read and a table without
/// records end the check with their error; a table of nations with records ends it well.
pub open spec fn step_after(observation: DbObservation) -> DbCheckStep {
    match observation {
        DbObservation::DatabaseFile { readable } => if readable {
            DbCheckStep::CountCities
        } else {
            DbCheckStep::Failed(DbError::NotExist)
        },
        DbObservation::CitiesCount(count) => if count <= 0 {
            DbCheckStep::Failed(DbError::CitiesTableEmpty)
        } else {
            DbCheckStep::CountNations
        },
        DbObservation::NationsCount(count) => if count <= 0 {
            DbCheckStep::Failed(DbError::NationsTableEmpty)
        } else {
            DbCheckStep::Passed
        },
    }
}

/// The outcome of the whole check of a database whose file is readable or not and whose
/// tables hold the given numbers of records.
pub open spec fn check_outcome(readable: bool, cities: i64, nations: i64) -> Result<
    (),
    DbError,
> {
    if !readable {
        Err(DbError::NotExist)
    } else if cities <= 0 {
        Err(DbError::CitiesTableEmpty)
    } else if nations <= 0 {
        Err(DbError::NationsTableEmpty)
    } else {
        Ok(())
    }
}

/// Following the steps from the first one, with the observations that a given database
/// yields, ends in the outcome of the whole check.
pub proof fn lemma_steps_reach_outcome(readable: bool, cities: i64, nations: i64)
    ensures
        ({
            let outcome = Some(check_outcome(readable, cities, nations));
            let after_file = step_after(DbObservation::DatabaseFile { readable });
            let after_cities = step_after(DbObservation::CitiesCount(cities));
            let after_nations = step_after(DbObservation::NationsCount(nations));
            if after_file != DbCheckStep::CountCities {
                after_file.outcome() == outcome
            } else if after_cities != DbCheckStep::CountNations {
                after_cities.outcome() == outcome
            } else {
                after_nations.outcome() == outcome
            }
        }),
{
}

/// The step with which the check of the database begins.
pub fn first_db_check_step() -> (step: DbCheckStep)
    ensures
        step == DbCheckStep::ReadDatabaseFile,
{
    DbCheckStep::ReadDatabaseFile
}

/// The step that follows the given observation.
pub fn next_db_check_step(observation: DbObservation) -> (step: DbCheckStep)
    ensures
        step == step_after(observation),
{
    match observation {
        DbObservation::DatabaseFile { readable } => {
            if readable {
                DbCheckStep::CountCities
            } else {
                DbCheckStep::Failed(DbError::NotExist)
            }
        },
        DbObservation::CitiesCount(count) => {
            if count <= 0 {
                DbCheckStep::Failed(DbError::CitiesTableEmpty)
            } else {
                DbCheckStep::CountNations
            }
        },
        DbObservation::NationsCount(count) => {
            if count <= 0 {
                DbCheckStep::Failed(DbError::NationsTableEmpty)
            } else {
                DbCheckStep::Passed
            }
        },
    }
}

/// The code under which a nation is kept: the sentinel code for a nation that comes
/// without a code, and its own code for any other.
pub open spec fn normalized_nation_code(code: Seq<char>) -> Seq<char> {
    if code.len() == 0 {
        sentinel_code()
    } else {
        code
    }
}

/// `nations` holds, in the same order, the name and the normalized code of each record of
/// `loaded`.
pub open spec fn nations_prepared_from(
    loaded: Seq<NewLoadedNation>,
    nations: Seq<NewNation>,
) -> bool {
    &&& nations.len() == loaded.len()
    &&& forall|i: int|
        0 <= i < loaded.len() ==> {
            &&& (#[trigger] nations[i]).nation_name@ == loaded[i].nation_name@
            &&& nations[i].nation_code@ == normalized_nation_code(loaded[i].nation_code@)
        }
}

/// `cities` holds, in the same order, the name and the code of each record of `loaded`.
pub open spec fn cities_prepared_from(loaded: Seq<NewLoadedCity>, cities: Seq<NewCity>) -> bool {
    &&& cities.len() == loaded.len()
    &&& forall|i: int|
        0 <= i < loaded.len() ==> {
            &&& (#[trigger] cities[i]).city_name@ == loaded[i].city_name@
            &&& cities[i].city_code@ == loaded[i].city_code@
        }
}

/// A normalized code is never empty, and normalizing it again changes nothing.
pub proof fn lemma_normalized_nation_code(code: Seq<char>)
    ensures
        normalized_nation_code(code).len() > 0,
        normalized_nation_code(normalized_nation_code(code)) == normalized_nation_code(code),
        code.len() == 0 ==> normalized_nation_code(code) == sentinel_code(),
{
}

/// Gives a nation that comes without a code the sentinel code; any other nation stays as
/// it is.
pub fn normalize_nation(nation: NewNation) -> (normalized: NewNation)
    ensures
        normalized.nation_name@ == nation.nation_name@,
        normalized.nation_code@ == normalized_nation_code(nation.nation_code@),
{
    if nation.nation_code.as_str().is_empty() {
        NewNation { nation_code: sentinel(), nation_name: nation.nation_name }
    } else {
        nation
    }
}

/// The nations to add to the database for the records of a file of nations.
pub fn prepare_nations(loaded: Vec<NewLoadedNation>) -> (nations: Vec<NewNation>)
    ensures
        nations_prepared_from(loaded@, nations@),
{
    let mut nations: Vec<NewNation> = Vec::new();
    for record in it: loaded
        invariant
            nations@.len() == it.index(),
            forall|i: int|
                0 <= i < it.index() ==> {
                    &&& (#[trigger] nations@[i]).nation_name@ == it.seq()[i].nation_name@
                    &&& nations@[i].nation_code@ == normalized_nation_code(
                        it.seq()[i].nation_code@,
                    )
                },
    {
        nations.push(normalize_nation(NewNation::from(record)));
    }
    nations
}

/// The cities to add to the database for the records of a file of cities.
pub fn prepare_cities(loaded: Vec<NewLoadedCity>) -> (cities: Vec<NewCity>)
    ensures
        cities_prepared_from(loaded@, cities@),
{
    let mut cities: Vec<NewCity> = Vec::new();
    for record in it: loaded
        invariant
            cities@.len() == it.index(),
            forall|i: int|
                0 <= i < it.index() ==> {
                    &&& (#[trigger] cities@[i]).city_name@ == it.seq()[i].city_name@
                    &&& cities@[i].city_code@ == it.seq()[i].city_code@
                },
    {
        cities.push(NewCity::from(record));
    }
    cities
}

} // verus!
