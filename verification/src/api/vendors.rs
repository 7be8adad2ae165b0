//! The vendor endpoint.

use crate::api::{InternalError, INTERNAL_SERVER_ERROR};
use crate::db::VendorRow;
use crate::domain::vendors::{listing_of, VendorView};
use crate::domain::{get_vendors as list_vendors, Vendors};
use vstd::prelude::*;

verus! {

/// Answers a request for the vendors from what the store returned: the
/// listing, or an internal error that keeps the cause, be it the store's
/// failure or the defect of a row.
pub fn get_vendors(fetched: Result<Vec<VendorRow>, String>) -> (r: Result<
    Vendors,
    InternalError,
>)
    ensures
        match r {
            Ok(listing) => fetched matches Ok(rows) && listing_of(rows@) == Ok::<
                Seq<VendorView>,
                Seq<char>,
            >(listing@),
            Err(error) => {
                &&& error.status == INTERNAL_SERVER_ERROR
                &&& match fetched {
                    Err(cause) => error.cause@ == cause@,
                    Ok(rows) => listing_of(rows@) == Err::<Seq<VendorView>, Seq<char>>(
                        error.cause@,
                    ),
                }
            },
        },
{
    match list_vendors(fetched) {
        Ok(listing) => Ok(listing),
        Err(cause) => Err(InternalError::because(cause)),
    }
}

} // verus!
