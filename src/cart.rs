//! The cart: an ordered collection of owned items with a subtotal and a
//! textual listing.
use vstd::prelude::*;
use vstd::string::StringExecFns;
use crate::item::{CartItem, Item};
use crate::text::{decimal, push_decimal};

verus! {

/// The sum of the prices of `items`, folded left to right from zero.
pub open spec fn total_price(items: Seq<CartItem>) -> nat
    decreases items.len(),
{
    if items.len() == 0 {
        0
    } else {
        total_price(items.drop_last()) + items.last().price() as nat
    }
}

/// The listing line of one item: its description, a space, a dollar sign,
/// its price in decimal, and a line break.
pub open spec fn line_of(item: CartItem) -> Seq<char> {
    item.description() + seq![' ', '$'] + decimal(item.price() as nat) + seq!['\n']
}

/// The listing of `items`: the line of each item, in order.
pub open spec fn listing(items: Seq<CartItem>) -> Seq<char>
    decreases items.len(),
{
    if items.len() == 0 {
        Seq::empty()
    } else {
        listing(items.drop_last()) + line_of(items.last())
    }
}

/// An ordered collection of items, each owned by the cart. The subtotal is
/// returned as a `u128`, which holds the exact sum of any number of `u64`
/// prices that a `Vec` can hold, so it never overflows.
pub struct Cart {
    items: Vec<CartItem>,
}

impl View for Cart {
    type V = Seq<CartItem>;

    closed spec fn view(&self) -> Seq<CartItem> {
        self.items@
    }
}

impl Default for Cart {
    fn default() -> (r: Cart)
        ensures
            r@ == Seq::<CartItem>::empty(),
    {
        Cart::new()
    }
}

proof fn lemma_total_price_bound(items: Seq<CartItem>)
    ensures
        total_price(items) <= items.len() * (u64::MAX as nat),
    decreases items.len(),
{
    if items.len() > 0 {
        lemma_total_price_bound(items.drop_last());
    }
}

impl Cart {
    /// An empty cart.
    pub fn new() -> (r: Cart)
        ensures
            r@ == Seq::<CartItem>::empty(),
    {
        Cart { items: Vec::new() }
    }

    /// Appends `item` at the end of the cart, which takes ownership of it.
    pub fn add(&mut self, item: CartItem)
        ensures
            final(self)@ == old(self)@.push(item),
    {
        self.items.push(item);
    }

    /// The exact sum of the prices of the items in the cart.
    pub fn get_subtotal(&self) -> (r: u128)
        ensures
            r == total_price(self@),
    {
        let mut acc: u128 = 0;
        let mut i: usize = 0;
        while i < self.items.len()
            invariant
                i <= self.items@.len(),
                acc == total_price(self.items@.take(i as int)),
            decreases self.items@.len() - i,
        {
            let p = self.items[i].get_price();
            proof {
                let s = self.items@.take(i as int + 1);
                assert(s.drop_last() =~= self.items@.take(i as int));
                lemma_total_price_bound(s);
                assert(s.len() * (u64::MAX as nat) <= (usize::MAX as nat) * (u64::MAX as nat))
                    by (nonlinear_arith)
                    requires
                        s.len() <= usize::MAX,
                ;
            }
            acc = acc + p as u128;
            i = i + 1;
        }
        assert(self.items@.take(i as int) =~= self.items@);
        acc
    }

    /// The listing of the cart: one line per item, in the order of addition.
    pub fn render(&self) -> (r: String)
        ensures
            r@ == listing(self@),
    {
        let mut out = String::new();
        let mut i: usize = 0;
        while i < self.items.len()
            invariant
                i <= self.items@.len(),
                out@ == listing(self.items@.take(i as int)),
            decreases self.items@.len() - i,
        {
            let item = &self.items[i];
            proof {
                reveal_strlit(" $");
                reveal_strlit("\n");
                assert(self.items@.take(i as int + 1).drop_last() =~= self.items@.take(i as int));
            }
            out.append(item.get_description());
            out.append(" $");
            push_decimal(&mut out, item.get_price());
            out.append("\n");
            i = i + 1;
        }
        assert(self.items@.take(i as int) =~= self.items@);
        out
    }
}

} // verus!
