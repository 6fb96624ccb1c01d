//! Priced items and the capability they share.
use vstd::prelude::*;

verus! {

/// A price in minor currency units (cents).
pub type Price = u64;

/// The capability of every cart entry: a description and a price, both
/// read without side effects.
pub trait Item {
    /// The description, as text.
    spec fn description(&self) -> Seq<char>;

    /// The price in minor currency units.
    spec fn price(&self) -> Price;

    fn get_description(&self) -> (r: &str)
        ensures
            r@ == self.description(),
    ;

    fn get_price(&self) -> (r: Price)
        ensures
            r == self.price(),
    ;
}

/// A book, described by its title.
pub struct Book {
    pub price: Price,
    pub title: String,
}

impl Item for Book {
    open spec fn description(&self) -> Seq<char> {
        self.title@
    }

    open spec fn price(&self) -> Price {
        self.price
    }

    fn get_description(&self) -> (r: &str) {
        self.title.as_str()
    }

    fn get_price(&self) -> (r: Price) {
        self.price
    }
}

/// A food item. Its calories are carried along but no operation reads them.
pub struct Food {
    pub calories_per_serving: u32,
    pub description: String,
    pub price: Price,
}

impl Item for Food {
    open spec fn description(&self) -> Seq<char> {
        self.description@
    }

    open spec fn price(&self) -> Price {
        self.price
    }

    fn get_description(&self) -> (r: &str) {
        self.description.as_str()
    }

    fn get_price(&self) -> (r: Price) {
        self.price
    }
}

/// One entry of a cart: any of the item kinds, dispatched per entry.
pub enum CartItem {
    Book(Book),
    Food(Food),
}

impl Item for CartItem {
    open spec fn description(&self) -> Seq<char> {
        match self {
            CartItem::Book(b) => b.description(),
            CartItem::Food(f) => f.description(),
        }
    }

    open spec fn price(&self) -> Price {
        match self {
            CartItem::Book(b) => b.price(),
            CartItem::Food(f) => f.price(),
        }
    }

    fn get_description(&self) -> (r: &str) {
        match self {
            CartItem::Book(b) => b.get_description(),
            CartItem::Food(f) => f.get_description(),
        }
    }

    fn get_price(&self) -> (r: Price) {
        match self {
            CartItem::Book(b) => b.get_price(),
            CartItem::Food(f) => f.get_price(),
        }
    }
}

} // verus!
