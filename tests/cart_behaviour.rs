use shopping_cart::cart::Cart;
use shopping_cart::item::{Book, CartItem, Food, Item};
use shopping_cart::text::push_decimal;

fn book(title: &str, price: u64) -> CartItem {
    CartItem::Book(Book { price, title: title.to_string() })
}

fn food(description: &str, calories_per_serving: u32, price: u64) -> CartItem {
    CartItem::Food(Food { calories_per_serving, description: description.to_string(), price })
}

fn sample_cart() -> Cart {
    let mut cart = Cart::default();
    cart.add(book("Svelte and Sapper in Action", 2000));
    cart.add(food("Snickers bar", 229, 75));
    cart.add(food("Coke can", 140, 100));
    cart
}

#[test]
fn three_items_subtotal_and_listing() {
    let cart = sample_cart();
    assert_eq!(cart.get_subtotal(), 2175);
    assert_eq!(
        cart.render(),
        "Svelte and Sapper in Action $2000\nSnickers bar $75\nCoke can $100\n"
    );
}

#[test]
fn subtotal_in_major_units() {
    let cart = sample_cart();
    let shown = format!("subtotal = {}", cart.get_subtotal() as f64 / 100.0);
    assert_eq!(shown, "subtotal = 21.75");
}

#[test]
fn empty_cart_subtotal_is_zero() {
    assert_eq!(Cart::new().get_subtotal(), 0);
    assert_eq!(Cart::default().get_subtotal(), 0);
}

#[test]
fn empty_cart_renders_nothing() {
    assert_eq!(Cart::new().render(), "");
}

#[test]
fn subtotal_is_sum_in_any_order() {
    let mut forward = Cart::new();
    let mut backward = Cart::new();
    let prices: [u64; 5] = [3, 0, 1999, 42, 7];
    for (k, p) in prices.iter().enumerate() {
        forward.add(book(&format!("b{}", k), *p));
    }
    for (k, p) in prices.iter().enumerate().rev() {
        backward.add(food(&format!("f{}", k), 10, *p));
    }
    assert_eq!(forward.get_subtotal(), 2051);
    assert_eq!(backward.get_subtotal(), 2051);
}

#[test]
fn subtotal_does_not_overflow_u64() {
    let mut cart = Cart::new();
    cart.add(book("a", u64::MAX));
    cart.add(book("b", u64::MAX));
    cart.add(food("c", 0, 1));
    assert_eq!(cart.get_subtotal(), 2 * (u64::MAX as u128) + 1);
}

#[test]
fn one_line_per_item_in_order() {
    let mut cart = Cart::new();
    cart.add(food("Tea", 0, 0));
    cart.add(book("Zebra", 10));
    cart.add(food("Apple", 95, 5));
    let text = cart.render();
    let lines: Vec<&str> = text.lines().collect();
    assert_eq!(lines, vec!["Tea $0", "Zebra $10", "Apple $5"]);
    assert!(text.ends_with('\n'));
    assert_eq!(text.matches('\n').count(), 3);
}

#[test]
fn repeated_queries_agree() {
    let cart = sample_cart();
    assert_eq!(cart.get_subtotal(), cart.get_subtotal());
    assert_eq!(cart.render(), cart.render());
}

#[test]
fn queries_interleave_with_adds() {
    let mut cart = Cart::new();
    cart.add(book("One", 1));
    assert_eq!(cart.render(), "One $1\n");
    assert_eq!(cart.get_subtotal(), 1);
    cart.add(book("Two", 20));
    assert_eq!(cart.render(), "One $1\nTwo $20\n");
    assert_eq!(cart.get_subtotal(), 21);
}

#[test]
fn item_accessors_dispatch_per_kind() {
    let b = book("Title", 12);
    let f = food("Snack", 300, 34);
    assert_eq!(b.get_description(), "Title");
    assert_eq!(b.get_price(), 12);
    assert_eq!(f.get_description(), "Snack");
    assert_eq!(f.get_price(), 34);
    let plain = Food { calories_per_serving: 1, description: "Plain".to_string(), price: 9 };
    assert_eq!(plain.get_description(), "Plain");
    assert_eq!(plain.get_price(), 9);
}

#[test]
fn decimal_text_of_prices() {
    let mut out = String::from("x");
    push_decimal(&mut out, 0);
    assert_eq!(out, "x0");
    let mut big = String::new();
    push_decimal(&mut big, u64::MAX);
    assert_eq!(big, "18446744073709551615");
    let mut mid = String::new();
    push_decimal(&mut mid, 1002003);
    assert_eq!(mid, "1002003");
}
