//! A storefront product card as a verified view-model: what the card shows
//! for a catalog record, and what a click on any part of it sets off.

pub mod components;
pub mod route;
pub mod tree;
pub mod types;
