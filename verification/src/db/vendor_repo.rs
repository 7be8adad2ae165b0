//! Food vendor rows.

use vstd::prelude::*;

verus! {

/// One food vendor as stored.
#[derive(Debug)]
pub struct VendorRow {
    pub id: u128,
    pub name: String,
    pub notes: Option<String>,
    pub website: Option<String>,
    pub menu: Option<String>,
}

} // verus!
