//! Brewery rows.

use vstd::prelude::*;

verus! {

/// One brewery as stored. Latitude and longitude are carried as the bit
/// patterns of IEEE 754 double-precision numbers.
#[derive(Debug)]
pub struct BreweryRow {
    pub id: u128,
    pub name: String,
    pub notes: Option<String>,
    pub website: Option<String>,
    pub address: Option<String>,
    pub lat: Option<u64>,
    pub lng: Option<u64>,
    pub drink_menu: Option<String>,
    pub food_schedule: Option<String>,
}

} // verus!
