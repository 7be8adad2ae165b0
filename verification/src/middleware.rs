//! The identifier that every request and its response carry.

use crate::ids::{hyphenated, id_text};
use vstd::prelude::*;

verus! {

/// The header that carries the identifier.
pub const X_REQUEST_ID: &'static str = "x-request-id";

/// Whether `id` has the form of a random identifier: version 4 in its
/// thirteenth hexadecimal digit, and the two bits `10` at the top of its
/// seventeenth.
pub open spec fn is_random_id(id: u128) -> bool {
    id & 0x0000_0000_0000_f000_c000_0000_0000_0000 == 0x0000_0000_0000_4000_8000_0000_0000_0000
}

/// The identifier that a request brings along: the value of its header,
/// where the request has the header, its value is text and the text is not
/// empty.
pub open spec fn inbound_id(header: Option<&str>) -> Option<Seq<char>> {
    match header {
        Some(value) => if value@.len() > 0 {
            Some(value@)
        } else {
            None
        },
        None => None,
    }
}

/// The identifier that a request brings along, given the text of its
/// `x-request-id` header, if it has one.
pub fn inbound_request_id(header: Option<&str>) -> (r: Option<String>)
    ensures
        match r {
            Some(id) => inbound_id(header) == Some(id@),
            None => inbound_id(header) is None,
        },
{
    match header {
        Some(value) => if value.is_empty() {
            None
        } else {
            Some(value.to_owned())
        },
        None => None,
    }
}

/// The identifier under which a request is handled: the one it brings along,
/// or else a fresh random one in hyphenated form. It is never empty.
pub fn request_id(header: Option<&str>) -> (r: String)
    ensures
        match inbound_id(header) {
            Some(id) => r@ == id,
            None => exists|id: u128| is_random_id(id) && r@ == hyphenated(id),
        },
        r@.len() > 0,
{
    match inbound_request_id(header) {
        Some(id) => id,
        None => id_text(random_id()),
    }
}

/// Draws an identifier with `Uuid::new_v4` and gives its value with
/// `Uuid::as_u128`.
///
/// The value comes from the system's source of randomness, and `new_v4`
/// panics where that source fails. Whatever was drawn, `new_v4` sets the
/// version to 4 and the variant to `10`.
#[verifier::external_body]
fn random_id() -> (r: u128)
    ensures
        is_random_id(r),
{
    uuid::Uuid::new_v4().as_u128()
}

} // verus!
