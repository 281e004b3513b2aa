//! The records of nations and cities: as they are kept, as they are added, and as the
//! files of reference data give them.

use vstd::prelude::*;
use vstd::std_specs::convert::FromSpecImpl;

verus! {

/// Represents a city in the database
#[derive(Clone, Debug)]
pub struct City {
    pub id: i32,
    pub city_name: String,
    pub city_code: String,
}

/// Represents a nation in the database
#[derive(Clone, Debug)]
pub struct Nation {
    pub id: i32,
    pub nation_name: String,
    pub nation_code: String,
}

/// Represents a city to add to the database
#[derive(Clone, Debug)]
pub struct NewCity {
    pub city_name: String,
    pub city_code: String,
}

/// Represents a nation to add to the database
#[derive(Clone, Debug)]
pub struct NewNation {
    pub nation_name: String,
    pub nation_code: String,
}

/// Represents a city as in the json file
#[derive(Clone, Debug)]
pub struct NewLoadedCity {
    pub province_initials: String,
    pub istat_code: String,
    pub mixed_city_name: String,
    pub city_name: String,
    pub alternative_city_name: String,
    pub is_province: String,
    pub city_code: String,
    pub lat: String,
    pub lon: String,
    pub surface: String,
    pub overmunicipal_code: String,
}

/// Represents a nation as in the json file
#[derive(Clone, Debug)]
pub struct NewLoadedNation {
    pub nation_initials: String,
    pub nation_code: String,
    pub nation_name: String,
    pub citizen_name: String,
}

impl From<NewLoadedCity> for NewCity {
    /// Keeps the name and the code of the city, and drops the rest.
    fn from(value: NewLoadedCity) -> (city: Self) {
        NewCity { city_name: value.city_name, city_code: value.city_code }
    }
}

impl FromSpecImpl<NewLoadedCity> for NewCity {
    open spec fn obeys_from_spec() -> bool {
        true
    }

    open spec fn from_spec(value: NewLoadedCity) -> Self {
        NewCity { city_name: value.city_name, city_code: value.city_code }
    }
}

impl From<NewLoadedNation> for NewNation {
    /// Keeps the name and the code of the nation, and drops the rest.
    fn from(value: NewLoadedNation) -> (nation: Self) {
        NewNation { nation_name: value.nation_name, nation_code: value.nation_code }
    }
}

impl FromSpecImpl<NewLoadedNation> for NewNation {
    open spec fn obeys_from_spec() -> bool {
        true
    }

    open spec fn from_spec(value: NewLoadedNation) -> Self {
        NewNation { nation_name: value.nation_name, nation_code: value.nation_code }
    }
}

} // verus!
