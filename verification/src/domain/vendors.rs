//! Food vendors as they are reported.

use crate::db::VendorRow;
use crate::domain::{first_defect, lemma_defect_has_first, lemma_first_defect, no_defect};
use crate::ids::{hyphenated, id_text};
use vstd::prelude::*;

verus! {

/// The defect of a row without a vendor name.
pub const VENDOR_NAME_EMPTY: &'static str = "vendor name is empty";

/// What a [`Vendor`] reports.
pub struct VendorView {
    pub id: Seq<char>,
    pub name: Seq<char>,
    pub website: Option<Seq<char>>,
}

/// One food vendor of a response. Its name is non-empty.
#[derive(Debug)]
pub struct Vendor {
    id: String,
    name: String,
    website: Option<String>,
}

impl View for Vendor {
    type V = VendorView;

    closed spec fn view(&self) -> VendorView {
        VendorView { id: self.id@, name: self.name@, website: self.website.deep_view() }
    }
}

/// What is wrong with a row, if anything.
pub open spec fn row_defect(row: VendorRow) -> Option<Seq<char>> {
    if row.name@.len() == 0 {
        Some(VENDOR_NAME_EMPTY@)
    } else {
        None
    }
}

/// The vendor that a row without defect is reported as: its identifier in
/// hyphenated form, and name and website as they are.
pub open spec fn vendor_of(row: VendorRow) -> VendorView {
    VendorView { id: hyphenated(row.id), name: row.name@, website: row.website.deep_view() }
}

impl Vendor {
    #[verifier::type_invariant]
    spec fn named(self) -> bool {
        self.name@.len() > 0
    }

    /// Maps one row: the vendor it is reported as, or its defect.
    pub fn try_from(value: VendorRow) -> (r: Result<Vendor, &'static str>)
        ensures
            match r {
                Ok(vendor) => row_defect(value) is None && vendor@ == vendor_of(value),
                Err(defect) => row_defect(value) == Some(defect@),
            },
    {
        if value.name.as_str().is_empty() {
            return Err(VENDOR_NAME_EMPTY);
        }
        Ok(Vendor { id: id_text(value.id), name: value.name, website: value.website })
    }

    /// The identifier in hyphenated form.
    pub fn id(&self) -> (r: &str)
        ensures
            r@ == self@.id,
    {
        self.id.as_str()
    }

    /// The name, which is not empty.
    pub fn name(&self) -> (r: &str)
        ensures
            r@ == self@.name,
            r@.len() > 0,
    {
        proof {
            use_type_invariant(self);
        }
        self.name.as_str()
    }

    /// The website, if one is known.
    pub fn website(&self) -> (r: &Option<String>)
        ensures
            r.deep_view() == self@.website,
    {
        &self.website
    }
}

/// The defect of each row of a batch.
pub open spec fn defects_of(rows: Seq<VendorRow>) -> Seq<Option<Seq<char>>> {
    rows.map_values(|row: VendorRow| row_defect(row))
}

/// What mapping a batch of rows comes to: where no row has a defect, the
/// vendors of the rows in their order; else the defect of the first row
/// that has one, and no vendor at all.
pub open spec fn listing_of(rows: Seq<VendorRow>) -> Result<Seq<VendorView>, Seq<char>> {
    if no_defect(defects_of(rows)) {
        Ok(rows.map_values(|row: VendorRow| vendor_of(row)))
    } else {
        Err(first_defect(defects_of(rows)))
    }
}

/// One row without a name fails the whole batch, whatever the other rows
/// hold: the outcome is the defect, and no vendor is listed.
pub proof fn lemma_defect_fails_batch(rows: Seq<VendorRow>, index: int)
    requires
        0 <= index < rows.len(),
        rows[index].name@.len() == 0,
    ensures
        listing_of(rows) == Err::<Seq<VendorView>, Seq<char>>(VENDOR_NAME_EMPTY@),
{
    let first: int = lemma_defect_has_first(defects_of(rows), index);
    lemma_first_defect(defects_of(rows), first);
}

/// A listing holds one vendor for each row, in the order of the rows, and
/// exists only where no row has a defect.
pub proof fn lemma_listing_in_order(rows: Seq<VendorRow>)
    requires
        listing_of(rows) is Ok,
    ensures
        listing_of(rows)->Ok_0.len() == rows.len(),
        forall|i: int|
            0 <= i < rows.len() ==> {
                &&& row_defect(#[trigger] rows[i]) is None
                &&& listing_of(rows)->Ok_0[i] == vendor_of(rows[i])
            },
{
    assert forall|i: int| 0 <= i < rows.len() implies row_defect(#[trigger] rows[i]) is None by {
        assert(defects_of(rows)[i] is None);
    }
}

/// The vendors of one response, in the order of their rows.
#[derive(Debug)]
pub struct Vendors {
    vendors: Vec<Vendor>,
}

impl View for Vendors {
    type V = Seq<VendorView>;

    closed spec fn view(&self) -> Seq<VendorView> {
        self.vendors@.map_values(|vendor: Vendor| vendor@)
    }
}

impl Vendors {
    /// Maps all rows or none: the vendors of the rows in their order, or the
    /// defect of the first row that has one.
    pub fn try_from(value: Vec<VendorRow>) -> (r: Result<Vendors, &'static str>)
        ensures
            match r {
                Ok(listing) => listing_of(value@) == Ok::<Seq<VendorView>, Seq<char>>(listing@),
                Err(defect) => listing_of(value@) == Err::<Seq<VendorView>, Seq<char>>(defect@),
            },
    {
        let mut vendors: Vec<Vendor> = Vec::new();
        for row in rows: value
            invariant
                rows.seq() == value@,
                vendors@.len() == rows.index(),
                forall|i: int|
                    0 <= i < rows.index() ==> {
                        &&& row_defect(#[trigger] value@[i]) is None
                        &&& vendors@[i]@ == vendor_of(value@[i])
                    },
        {
            match Vendor::try_from(row) {
                Ok(vendor) => vendors.push(vendor),
                Err(defect) => {
                    proof {
                        lemma_first_defect(defects_of(value@), rows.index() as int);
                    }
                    return Err(defect);
                },
            }
        }
        let listing = Vendors { vendors };
        assert(listing@ =~= value@.map_values(|row: VendorRow| vendor_of(row)));
        Ok(listing)
    }

    /// The vendors in order.
    pub fn vendors(&self) -> (r: &Vec<Vendor>)
        ensures
            r@.map_values(|vendor: Vendor| vendor@) == self@,
    {
        &self.vendors
    }
}

/// Lists the vendors from what the store returned: its rows mapped all or
/// none, or the cause of its failure as it stands.
pub fn get_vendors(fetched: Result<Vec<VendorRow>, String>) -> (r: Result<Vendors, String>)
    ensures
        match fetched {
            Err(cause) => r matches Err(failure) && failure@ == cause@,
            Ok(rows) => match r {
                Ok(listing) => listing_of(rows@) == Ok::<Seq<VendorView>, Seq<char>>(listing@),
                Err(failure) => listing_of(rows@) == Err::<Seq<VendorView>, Seq<char>>(failure@),
            },
        },
{
    let rows = match fetched {
        Ok(rows) => rows,
        Err(cause) => return Err(cause),
    };
    match Vendors::try_from(rows) {
        Ok(listing) => Ok(listing),
        Err(defect) => Err(defect.to_owned()),
    }
}

} // verus!
