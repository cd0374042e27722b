//! The data a card is given to show.

use vstd::prelude::*;

verus! {

/// A catalog record as the catalog hands it to a card. The card shows the
/// fields as they are: none of them is checked or changed.
#[derive(Debug, PartialEq, Eq)]
pub struct Product {
    /// Identifies the record; the detail route is built from it.
    pub id: i32,
    /// The display name.
    pub name: String,
    /// Where the picture is found.
    pub image: String,
    /// The amount as it is to be shown, without a currency sign.
    pub price: String,
}

/// The mathematical content of a [`Product`].
pub struct ProductView {
    pub id: i32,
    pub name: Seq<char>,
    pub image: Seq<char>,
    pub price: Seq<char>,
}

impl View for Product {
    type V = ProductView;

    open spec fn view(&self) -> ProductView {
        ProductView { id: self.id, name: self.name@, image: self.image@, price: self.price@ }
    }
}

impl Clone for Product {
    /// A copy that holds the same four values.
    fn clone(&self) -> (copy: Self)
        ensures
            copy@ == self@,
    {
        Product {
            id: self.id,
            name: self.name.clone(),
            image: self.image.clone(),
            price: self.price.clone(),
        }
    }
}

} // verus!
