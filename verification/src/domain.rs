//! Response records and the mapping of rows to them.
//!
//! A batch of rows is mapped all or nothing: one row with a defect fails the
//! whole batch, and the first such row says with what.

pub mod breweries;
pub mod schedules;
pub mod vendors;

pub use breweries::{get_breweries, Breweries, Brewery};
pub use schedules::{get_schedules, Schedule, VendorSchedules};
pub use vendors::{get_vendors, Vendor, Vendors};

use vstd::prelude::*;

verus! {

/// Whether none of the rows has a defect, given the defect of each row.
pub open spec fn no_defect(defects: Seq<Option<Seq<char>>>) -> bool {
    forall|i: int| 0 <= i < defects.len() ==> #[trigger] defects[i] is None
}

/// Whether the row at `index` is the first one with a defect.
pub open spec fn first_defect_at(defects: Seq<Option<Seq<char>>>, index: int) -> bool {
    &&& 0 <= index < defects.len()
    &&& defects[index] is Some
    &&& forall|j: int| 0 <= j < index ==> #[trigger] defects[j] is None
}

/// The defect of the first row that has one.
pub open spec fn first_defect(defects: Seq<Option<Seq<char>>>) -> Seq<char>
    recommends
        !no_defect(defects),
{
    defects[choose|index: int| first_defect_at(defects, index)]->0
}

/// There is at most one first row with a defect, and its defect is the first
/// defect.
pub proof fn lemma_first_defect(defects: Seq<Option<Seq<char>>>, index: int)
    requires
        first_defect_at(defects, index),
    ensures
        !no_defect(defects),
        first_defect(defects) == defects[index]->0,
{
    let chosen = choose|k: int| first_defect_at(defects, k);
    assert(first_defect_at(defects, chosen));
    assert(chosen == index) by {
        if chosen < index {
            assert(defects[chosen] is None);
        } else if index < chosen {
            assert(defects[index] is None);
        }
    }
}

/// Where some row has a defect, a first such row exists, no later than that
/// one.
pub proof fn lemma_defect_has_first(defects: Seq<Option<Seq<char>>>, index: int) -> (first: int)
    requires
        0 <= index < defects.len(),
        defects[index] is Some,
    ensures
        0 <= first <= index,
        first_defect_at(defects, first),
    decreases index,
{
    if exists|j: int| 0 <= j < index && #[trigger] defects[j] is Some {
        let j = choose|j: int| 0 <= j < index && #[trigger] defects[j] is Some;
        lemma_defect_has_first(defects, j)
    } else {
        index
    }
}

} // verus!
