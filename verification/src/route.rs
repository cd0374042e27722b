//! The places a card can send the user to.

use vstd::prelude::*;

verus! {

/// A place in the storefront that a link can lead to. The routing layer
/// turns it into a location; the card only names it.
#[derive(Clone, Copy, Debug, PartialEq, Eq, Structural)]
pub enum Route {
    /// The detail page of the product with the given id.
    ProductDetail(i32),
}

} // verus!
