//! A shopping cart of priced items: books and food, each with a description
//! and a price in minor currency units, aggregated into a subtotal and a
//! textual listing.
pub mod item;
pub mod text;
pub mod cart;
pub mod laws;
