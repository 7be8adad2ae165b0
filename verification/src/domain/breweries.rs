//! Breweries as they are reported.

use crate::db::BreweryRow;
use crate::domain::{first_defect, lemma_defect_has_first, lemma_first_defect, no_defect};
use crate::ids::{hyphenated, id_text};
use vstd::prelude::*;

verus! {

/// The defect of a row without a brewery name.
pub const BREWERY_NAME_EMPTY: &'static str = "brewery name is empty";

/// What a [`Brewery`] reports.
pub struct BreweryView {
    pub id: Seq<char>,
    pub name: Seq<char>,
    pub address: Option<Seq<char>>,
    pub lat: Option<u64>,
    pub lng: Option<u64>,
    pub website: Option<Seq<char>>,
}

/// One brewery of a response. Its name is non-empty; latitude and longitude
/// are the bit patterns that its row carried.
#[derive(Debug)]
pub struct Brewery {
    id: String,
    name: String,
    address: Option<String>,
    lat: Option<u64>,
    lng: Option<u64>,
    website: Option<String>,
}

impl View for Brewery {
    type V = BreweryView;

    closed spec fn view(&self) -> BreweryView {
        BreweryView {
            id: self.id@,
            name: self.name@,
            address: self.address.deep_view(),
            lat: self.lat,
            lng: self.lng,
            website: self.website.deep_view(),
        }
    }
}

/// What is wrong with a row, if anything.
pub open spec fn row_defect(row: BreweryRow) -> Option<Seq<char>> {
    if row.name@.len() == 0 {
        Some(BREWERY_NAME_EMPTY@)
    } else {
        None
    }
}

/// The brewery that a row without defect is reported as: its identifier in
/// hyphenated form, and name, address, coordinates and website as they are.
pub open spec fn brewery_of(row: BreweryRow) -> BreweryView {
    BreweryView {
        id: hyphenated(row.id),
        name: row.name@,
        address: row.address.deep_view(),
        lat: row.lat,
        lng: row.lng,
        website: row.website.deep_view(),
    }
}

impl Brewery {
    #[verifier::type_invariant]
    spec fn named(self) -> bool {
        self.name@.len() > 0
    }

    /// Maps one row: the brewery it is reported as, or its defect.
    pub fn try_from(value: BreweryRow) -> (r: Result<Brewery, &'static str>)
        ensures
            match r {
                Ok(brewery) => row_defect(value) is None && brewery@ == brewery_of(value),
                Err(defect) => row_defect(value) == Some(defect@),
            },
    {
        if value.name.as_str().is_empty() {
            return Err(BREWERY_NAME_EMPTY);
        }
        Ok(
            Brewery {
                id: id_text(value.id),
                name: value.name,
                address: value.address,
                lat: value.lat,
                lng: value.lng,
                website: value.website,
            },
        )
    }

    /// The identifier in hyphenated form.
    pub fn id(&self) -> (r: &str)
        ensures
            r@ == self@.id,
    {
        self.id.as_str()
    }

    /// The name, which is not empty.
    pub fn name(&self) -> (r: &str)
        ensures
            r@ == self@.name,
            r@.len() > 0,
    {
        proof {
            use_type_invariant(self);
        }
        self.name.as_str()
    }

    /// The address, if one is known.
    pub fn address(&self) -> (r: &Option<String>)
        ensures
            r.deep_view() == self@.address,
    {
        &self.address
    }

    /// The latitude as the bit pattern of a double-precision number, if one
    /// is known.
    pub fn lat(&self) -> (r: Option<u64>)
        ensures
            r == self@.lat,
    {
        self.lat
    }

    /// The longitude as the bit pattern of a double-precision number, if one
    /// is known.
    pub fn lng(&self) -> (r: Option<u64>)
        ensures
            r == self@.lng,
    {
        self.lng
    }

    /// The website, if one is known.
    pub fn website(&self) -> (r: &Option<String>)
        ensures
            r.deep_view() == self@.website,
    {
        &self.website
    }
}

/// The defect of each row of a batch.
pub open spec fn defects_of(rows: Seq<BreweryRow>) -> Seq<Option<Seq<char>>> {
    rows.map_values(|row: BreweryRow| row_defect(row))
}

/// What mapping a batch of rows comes to: where no row has a defect, the
/// breweries of the rows in their order; else the defect of the first row
/// that has one, and no brewery at all.
pub open spec fn listing_of(rows: Seq<BreweryRow>) -> Result<Seq<BreweryView>, Seq<char>> {
    if no_defect(defects_of(rows)) {
        Ok(rows.map_values(|row: BreweryRow| brewery_of(row)))
    } else {
        Err(first_defect(defects_of(rows)))
    }
}

/// One row without a name fails the whole batch, whatever the other rows
/// hold: the outcome is the defect, and no brewery is listed.
pub proof fn lemma_defect_fails_batch(rows: Seq<BreweryRow>, index: int)
    requires
        0 <= index < rows.len(),
        rows[index].name@.len() == 0,
    ensures
        listing_of(rows) == Err::<Seq<BreweryView>, Seq<char>>(BREWERY_NAME_EMPTY@),
{
    let first: int = lemma_defect_has_first(defects_of(rows), index);
    lemma_first_defect(defects_of(rows), first);
}

/// A listing holds one brewery for each row, in the order of the rows, and
/// exists only where no row has a defect.
pub proof fn lemma_listing_in_order(rows: Seq<BreweryRow>)
    requires
        listing_of(rows) is Ok,
    ensures
        listing_of(rows)->Ok_0.len() == rows.len(),
        forall|i: int|
            0 <= i < rows.len() ==> {
                &&& row_defect(#[trigger] rows[i]) is None
                &&& listing_of(rows)->Ok_0[i] == brewery_of(rows[i])
            },
{
    assert forall|i: int| 0 <= i < rows.len() implies row_defect(#[trigger] rows[i]) is None by {
        assert(defects_of(rows)[i] is None);
    }
}

/// The breweries of one response, in the order of their rows.
#[derive(Debug)]
pub struct Breweries {
    breweries: Vec<Brewery>,
}

impl View for Breweries {
    type V = Seq<BreweryView>;

    closed spec fn view(&self) -> Seq<BreweryView> {
        self.breweries@.map_values(|brewery: Brewery| brewery@)
    }
}

impl Breweries {
    /// Maps all rows or none: the breweries of the rows in their order, or the
    /// defect of the first row that has one.
    pub fn try_from(value: Vec<BreweryRow>) -> (r: Result<Breweries, &'static str>)
        ensures
            match r {
                Ok(listing) => listing_of(value@) == Ok::<Seq<BreweryView>, Seq<char>>(listing@),
                Err(defect) => listing_of(value@) == Err::<Seq<BreweryView>, Seq<char>>(defect@),
            },
    {
        let mut breweries: Vec<Brewery> = Vec::new();
        for row in rows: value
            invariant
                rows.seq() == value@,
                breweries@.len() == rows.index(),
                forall|i: int|
                    0 <= i < rows.index() ==> {
                        &&& row_defect(#[trigger] value@[i]) is None
                        &&& breweries@[i]@ == brewery_of(value@[i])
                    },
        {
            match Brewery::try_from(row) {
                Ok(brewery) => breweries.push(brewery),
                Err(defect) => {
                    proof {
                        lemma_first_defect(defects_of(value@), rows.index() as int);
                    }
                    return Err(defect);
                },
            }
        }
        let listing = Breweries { breweries };
        assert(listing@ =~= value@.map_values(|row: BreweryRow| brewery_of(row)));
        Ok(listing)
    }

    /// The breweries in order.
    pub fn breweries(&self) -> (r: &Vec<Brewery>)
        ensures
            r@.map_values(|brewery: Brewery| brewery@) == self@,
    {
        &self.breweries
    }
}

/// Lists the breweries from what the store returned: its rows mapped all or
/// none, or the cause of its failure as it stands.
pub fn get_breweries(fetched: Result<Vec<BreweryRow>, String>) -> (r: Result<Breweries, String>)
    ensures
        match fetched {
            Err(cause) => r matches Err(failure) && failure@ == cause@,
            Ok(rows) => match r {
                Ok(listing) => listing_of(rows@) == Ok::<Seq<BreweryView>, Seq<char>>(listing@),
                Err(failure) => listing_of(rows@) == Err::<Seq<BreweryView>, Seq<char>>(
                    failure@,
                ),
            },
        },
{
    let rows = match fetched {
        Ok(rows) => rows,
        Err(cause) => return Err(cause),
    };
    match Breweries::try_from(rows) {
        Ok(listing) => Ok(listing),
        Err(defect) => Err(defect.to_owned()),
    }
}

} // verus!
