//! Laws of the cart's model: what holds of the subtotal and the listing for
//! every sequence of items.
use vstd::prelude::*;
use crate::cart::{line_of, listing, total_price};
use crate::item::{CartItem, Item};
use crate::text::{decimal, lemma_decimal_digits};

verus! {

broadcast use vstd::seq_lib::group_to_multiset_ensures;

/// The number of occurrences of `c` in `t`.
pub open spec fn count_char(t: Seq<char>, c: char) -> nat
    decreases t.len(),
{
    if t.len() == 0 {
        0
    } else {
        count_char(t.drop_last(), c) + if t.last() == c { 1nat } else { 0nat }
    }
}

/// An empty cart has subtotal zero and an empty listing.
pub proof fn lemma_empty_cart()
    ensures
        total_price(Seq::<CartItem>::empty()) == 0,
        listing(Seq::<CartItem>::empty()) == Seq::<char>::empty(),
{
}

proof fn lemma_total_price_remove(s: Seq<CartItem>, j: int)
    requires
        0 <= j < s.len(),
    ensures
        total_price(s) == total_price(s.remove(j)) + s[j].price() as nat,
    decreases s.len(),
{
    if j == s.len() - 1 {
        assert(s.remove(j) =~= s.drop_last());
    } else {
        lemma_total_price_remove(s.drop_last(), j);
        assert(s.remove(j).drop_last() =~= s.drop_last().remove(j));
    }
}

/// The subtotal is the sum of the prices whatever the order of the items:
/// two sequences holding the same items, each as often, have the same total.
pub proof fn lemma_total_price_any_order(a: Seq<CartItem>, b: Seq<CartItem>)
    requires
        a.to_multiset() == b.to_multiset(),
    ensures
        total_price(a) == total_price(b),
    decreases a.len(),
{
    if a.len() == 0 {
        assert(a.to_multiset().len() == 0);
        assert(b.len() == 0);
    } else {
        let x = a.last();
        assert(a =~= a.drop_last().push(x));
        assert(b.to_multiset().count(x) > 0);
        assert(b.contains(x));
        let j = choose|j: int| 0 <= j < b.len() && b[j] == x;
        assert(b.remove(j).to_multiset() =~= a.drop_last().to_multiset());
        lemma_total_price_remove(b, j);
        lemma_total_price_any_order(a.drop_last(), b.remove(j));
    }
}

/// The listing of two sequences one after the other is the listing of the
/// first followed by that of the second.
pub proof fn lemma_listing_append(a: Seq<CartItem>, b: Seq<CartItem>)
    ensures
        listing(a + b) == listing(a) + listing(b),
    decreases b.len(),
{
    if b.len() == 0 {
        assert(a + b =~= a);
        assert(listing(a) + listing(b) =~= listing(a));
    } else {
        lemma_listing_append(a, b.drop_last());
        assert((a + b).drop_last() =~= a + b.drop_last());
        assert(listing(a) + listing(b) =~= listing(a) + listing(b.drop_last()) + line_of(b.last()));
    }
}

/// The listing holds the line of each item in the order of the items: the
/// item at `i` contributes its line after those of the items before it and
/// before those of the items after it.
pub proof fn lemma_listing_line_at(s: Seq<CartItem>, i: int)
    requires
        0 <= i < s.len(),
    ensures
        listing(s) == listing(s.take(i)) + line_of(s[i]) + listing(s.skip(i + 1)),
{
    let single = seq![s[i]];
    assert(single.drop_last() =~= Seq::<CartItem>::empty());
    assert(listing(single.drop_last()) =~= Seq::<char>::empty());
    assert(listing(single) =~= line_of(s[i]));
    assert(s =~= s.take(i) + single + s.skip(i + 1));
    lemma_listing_append(s.take(i) + single, s.skip(i + 1));
    lemma_listing_append(s.take(i), single);
}

proof fn lemma_count_char_append(a: Seq<char>, b: Seq<char>, c: char)
    ensures
        count_char(a + b, c) == count_char(a, c) + count_char(b, c),
    decreases b.len(),
{
    if b.len() == 0 {
        assert(a + b =~= a);
    } else {
        lemma_count_char_append(a, b.drop_last(), c);
        assert((a + b).drop_last() =~= a + b.drop_last());
    }
}

proof fn lemma_count_char_absent(t: Seq<char>, c: char)
    requires
        !t.contains(c),
    ensures
        count_char(t, c) == 0,
    decreases t.len(),
{
    if t.len() > 0 {
        assert(!t.drop_last().contains(c)) by {
            if t.drop_last().contains(c) {
                let k = choose|k: int| 0 <= k < t.drop_last().len() && t.drop_last()[k] == c;
                assert(t[k] == c);
            }
        }
        lemma_count_char_absent(t.drop_last(), c);
    }
}

/// Where no description holds a line break, the listing has exactly one
/// line break per item: one line per item.
pub proof fn lemma_listing_line_count(s: Seq<CartItem>)
    requires
        forall|i: int| 0 <= i < s.len() ==> !(#[trigger] s[i]).description().contains('\n'),
    ensures
        count_char(listing(s), '\n') == s.len(),
    decreases s.len(),
{
    if s.len() > 0 {
        let x = s.last();
        let d = decimal(x.price() as nat);
        lemma_listing_line_count(s.drop_last());
        lemma_decimal_digits(x.price() as nat);
        lemma_count_char_absent(x.description(), '\n');
        lemma_count_char_absent(seq![' ', '$'], '\n');
        lemma_count_char_absent(d, '\n');
        lemma_count_char_append(x.description(), seq![' ', '$'], '\n');
        lemma_count_char_append(x.description() + seq![' ', '$'], d, '\n');
        lemma_count_char_append(x.description() + seq![' ', '$'] + d, seq!['\n'], '\n');
        lemma_count_char_append(listing(s.drop_last()), line_of(x), '\n');
        assert(count_char(seq!['\n'], '\n') == 1) by {
            let nl = seq!['\n'];
            assert(nl.drop_last() =~= Seq::<char>::empty());
            assert(count_char(nl.drop_last(), '\n') == 0);
            assert(nl.last() == '\n');
        }
    }
}

/// Subtotal and listing depend on the items alone: with no item added
/// between two queries, the items are the same and so are the results.
pub proof fn lemma_queries_repeatable(before: Seq<CartItem>, after: Seq<CartItem>)
    requires
        before == after,
    ensures
        total_price(before) == total_price(after),
        listing(before) == listing(after),
{
}

} // verus!
