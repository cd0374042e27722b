//! The components of the storefront.

pub mod guarantees;
pub mod product_card;
