//! What each endpoint decides: which requests are accepted, and what a
//! listing that failed is answered with.

pub mod breweries;
pub mod schedules;
pub mod vendors;

pub use breweries::get_breweries;
pub use schedules::{
    get_schedules, GetSchedulesInput, GetSchedulesQueryParams, GetSchedulesRejection,
};
pub use vendors::get_vendors;

use vstd::prelude::*;

verus! {

/// The status of the response to a listing that failed.
pub const INTERNAL_SERVER_ERROR: u16 = 500;

/// A listing that failed: the status that the client is answered with, which
/// says nothing of the cause, and the cause, which is for the server's eyes.
#[derive(Debug)]
pub struct InternalError {
    pub status: u16,
    pub cause: String,
}

impl InternalError {
    /// The failure that `cause` brought about.
    pub fn because(cause: String) -> (r: InternalError)
        ensures
            r.status == INTERNAL_SERVER_ERROR,
            r.cause@ == cause@,
    {
        InternalError { status: INTERNAL_SERVER_ERROR, cause }
    }
}

} // verus!
