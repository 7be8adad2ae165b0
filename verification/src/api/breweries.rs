//! The brewery endpoint.

use crate::api::{InternalError, INTERNAL_SERVER_ERROR};
use crate::db::BreweryRow;
use crate::domain::breweries::{listing_of, BreweryView};
use crate::domain::{get_breweries as list_breweries, Breweries};
use vstd::prelude::*;

verus! {

/// Answers a request for the breweries from what the store returned: the
/// listing, or an internal error that keeps the cause, be it the store's
/// failure or the defect of a row.
pub fn get_breweries(fetched: Result<Vec<BreweryRow>, String>) -> (r: Result<
    Breweries,
    InternalError,
>)
    ensures
        match r {
            Ok(listing) => fetched matches Ok(rows) && listing_of(rows@) == Ok::<
                Seq<BreweryView>,
                Seq<char>,
            >(listing@),
            Err(error) => {
                &&& error.status == INTERNAL_SERVER_ERROR
                &&& match fetched {
                    Err(cause) => error.cause@ == cause@,
                    Ok(rows) => listing_of(rows@) == Err::<Seq<BreweryView>, Seq<char>>(
                        error.cause@,
                    ),
                }
            },
        },
{
    match list_breweries(fetched) {
        Ok(listing) => Ok(listing),
        Err(cause) => Err(InternalError::because(cause)),
    }
}

} // verus!
