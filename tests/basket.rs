use basket::engine::{
    add_item_to_basket, add_needs_product, clear_basket, find_item, get_basket, get_user_id,
    remove_item_from_basket, Outcome,
};
use basket::model::{Basket, BasketError, BasketItem, ProductSnapshot, RequestItem};
use basket::store::basket_key;

fn product(id: &str, restaurant: &str, price: f32) -> ProductSnapshot {
    ProductSnapshot {
        id: id.to_string(),
        label: format!("label {}", id),
        description: format!("about {}", id),
        price_bits: price.to_bits(),
        visible: true,
        quantity: 10,
        category_id: "c1".to_string(),
        restaurant_id: restaurant.to_string(),
    }
}

fn request(id: &str, quantity: i32) -> RequestItem {
    RequestItem { id: id.to_string(), quantity }
}

fn line(id: &str, restaurant: &str, price: f32, quantity: i32) -> BasketItem {
    let p = product(id, restaurant, price);
    BasketItem {
        id: p.id,
        quantity,
        label: p.label,
        description: p.description,
        price_bits: p.price_bits,
        category_id: p.category_id,
        restaurant_id: p.restaurant_id,
    }
}

fn basket_of(user: &str, items: Vec<BasketItem>) -> Basket {
    Basket { user_id: user.to_string(), items }
}

#[test]
fn get_without_record_is_empty_and_not_written() {
    let o = get_basket("u1", None);
    assert_eq!(o.basket, basket_of("u1", vec![]));
    assert!(!o.persist);
}

#[test]
fn get_returns_stored_record() {
    let stored = basket_of("u1", vec![line("p1", "r1", 1.0, 3)]);
    let o = get_basket("u1", Some(stored.clone()));
    assert_eq!(o, Outcome { basket: stored, persist: false });
}

#[test]
fn add_to_empty_basket_builds_line_from_snapshot() {
    let o = add_item_to_basket("u1", None, &request("p1", 2), Some(product("p1", "r1", 9.5)))
        .unwrap();
    assert!(o.persist);
    assert_eq!(o.basket, basket_of("u1", vec![line("p1", "r1", 9.5, 2)]));
    assert_eq!(f32::from_bits(o.basket.items[0].price_bits), 9.5);
}

#[test]
fn add_existing_increments_and_keeps_snapshot() {
    let stored = basket_of("u1", vec![line("p1", "r1", 9.5, 2), line("p2", "r1", 3.0, 1)]);
    let newer = ProductSnapshot { label: "renamed".to_string(), ..product("p1", "r1", 12.0) };
    let o = add_item_to_basket("u1", Some(stored), &request("p1", 3), Some(newer)).unwrap();
    assert!(o.persist);
    assert_eq!(
        o.basket,
        basket_of("u1", vec![line("p1", "r1", 9.5, 5), line("p2", "r1", 3.0, 1)])
    );
}

#[test]
fn add_existing_needs_no_catalog_answer() {
    let stored = basket_of("u1", vec![line("p1", "r1", 9.5, 2)]);
    assert!(!add_needs_product(&Some(stored.clone()), &request("p1", 1)));
    let o = add_item_to_basket("u1", Some(stored), &request("p1", 1), None).unwrap();
    assert_eq!(o.basket.items[0].quantity, 3);
}

#[test]
fn add_new_product_appends_in_order() {
    let stored = basket_of("u1", vec![line("p2", "r1", 3.0, 1)]);
    assert!(add_needs_product(&Some(stored.clone()), &request("p1", 1)));
    let o = add_item_to_basket("u1", Some(stored), &request("p1", 4), Some(product("p1", "r1", 2.5)))
        .unwrap();
    assert_eq!(
        o.basket,
        basket_of("u1", vec![line("p2", "r1", 3.0, 1), line("p1", "r1", 2.5, 4)])
    );
}

#[test]
fn add_from_other_restaurant_is_rejected() {
    let stored = basket_of("u1", vec![line("p1", "r1", 9.5, 2)]);
    let r = add_item_to_basket("u1", Some(stored), &request("p2", 1), Some(product("p2", "r2", 1.0)));
    assert_eq!(r, Err(BasketError::NotSameRestaurant));
}

#[test]
fn add_unknown_product_is_rejected() {
    let r = add_item_to_basket("u1", None, &request("p9", 1), None);
    assert_eq!(r, Err(BasketError::ProductNotFound));
}

#[test]
fn add_zero_to_present_line_keeps_quantity() {
    let stored = basket_of("u1", vec![line("p1", "r1", 1.0, 3)]);
    let o = add_item_to_basket("u1", Some(stored.clone()), &request("p1", 0), None).unwrap();
    assert_eq!(o, Outcome { basket: stored, persist: true });
}

#[test]
fn add_negative_to_present_line_lowers_or_drops_it() {
    let stored = basket_of("u1", vec![line("p1", "r1", 1.0, 3), line("p2", "r1", 1.0, 1)]);
    let o = add_item_to_basket("u1", Some(stored.clone()), &request("p1", -2), None).unwrap();
    assert_eq!(
        o.basket,
        basket_of("u1", vec![line("p1", "r1", 1.0, 1), line("p2", "r1", 1.0, 1)])
    );
    let o = add_item_to_basket("u1", Some(stored), &request("p1", -3), None).unwrap();
    assert!(o.persist);
    assert_eq!(o.basket, basket_of("u1", vec![line("p2", "r1", 1.0, 1)]));
}

#[test]
fn add_zero_of_new_product_changes_nothing() {
    assert!(add_needs_product(&None, &request("p1", 0)));
    let o = add_item_to_basket("u1", None, &request("p1", 0), Some(product("p1", "r1", 1.0)))
        .unwrap();
    assert_eq!(o, Outcome { basket: basket_of("u1", vec![]), persist: false });
    let stored = basket_of("u1", vec![line("p2", "r1", 1.0, 1)]);
    let o = add_item_to_basket("u1", Some(stored.clone()), &request("p1", -4), Some(product("p1", "r1", 1.0)))
        .unwrap();
    assert_eq!(o, Outcome { basket: stored, persist: false });
}

#[test]
fn add_zero_checks_catalog_and_restaurant_first() {
    let r = add_item_to_basket("u1", None, &request("p9", 0), None);
    assert_eq!(r, Err(BasketError::ProductNotFound));
    let stored = basket_of("u1", vec![line("p1", "r1", 9.5, 2)]);
    let r = add_item_to_basket("u1", Some(stored), &request("p2", 0), Some(product("p2", "r2", 1.0)));
    assert_eq!(r, Err(BasketError::NotSameRestaurant));
}

#[test]
fn add_past_largest_quantity_is_rejected() {
    let stored = basket_of("u1", vec![line("p1", "r1", 1.0, i32::MAX - 1)]);
    let ok = add_item_to_basket("u1", Some(stored.clone()), &request("p1", 1), None).unwrap();
    assert_eq!(ok.basket.items[0].quantity, i32::MAX);
    let r = add_item_to_basket("u1", Some(stored), &request("p1", 2), None);
    assert_eq!(r, Err(BasketError::QuantityOverflow));
}

#[test]
fn add_past_smallest_quantity_is_rejected() {
    let stored = basket_of("u1", vec![line("p1", "r1", 1.0, i32::MIN + 1)]);
    let r = add_item_to_basket("u1", Some(stored), &request("p1", -2), None);
    assert_eq!(r, Err(BasketError::QuantityOverflow));
}

#[test]
fn remove_at_least_quantity_drops_line() {
    let stored = basket_of("u1", vec![line("p1", "r1", 1.0, 2), line("p2", "r1", 1.0, 1)]);
    let o = remove_item_from_basket("u1", Some(stored.clone()), &request("p1", 2)).unwrap();
    assert!(o.persist);
    assert_eq!(o.basket, basket_of("u1", vec![line("p2", "r1", 1.0, 1)]));
    let o = remove_item_from_basket("u1", Some(stored), &request("p2", 7)).unwrap();
    assert_eq!(o.basket, basket_of("u1", vec![line("p1", "r1", 1.0, 2)]));
}

#[test]
fn remove_less_than_quantity_decrements() {
    let stored = basket_of("u1", vec![line("p1", "r1", 1.0, 5)]);
    let o = remove_item_from_basket("u1", Some(stored), &request("p1", 2)).unwrap();
    assert!(o.persist);
    assert_eq!(o.basket, basket_of("u1", vec![line("p1", "r1", 1.0, 3)]));
}

#[test]
fn remove_absent_product_changes_nothing() {
    let stored = basket_of("u1", vec![line("p1", "r1", 1.0, 5)]);
    let o = remove_item_from_basket("u1", Some(stored.clone()), &request("p3", 2)).unwrap();
    assert_eq!(o, Outcome { basket: stored, persist: false });
    let o = remove_item_from_basket("u2", None, &request("p3", 2)).unwrap();
    assert_eq!(o, Outcome { basket: basket_of("u2", vec![]), persist: false });
}

#[test]
fn remove_zero_or_negative_succeeds() {
    let stored = basket_of("u1", vec![line("p1", "r1", 1.0, 5)]);
    let o = remove_item_from_basket("u1", Some(stored.clone()), &request("p1", 0)).unwrap();
    assert_eq!(o, Outcome { basket: stored.clone(), persist: true });
    let o = remove_item_from_basket("u1", Some(stored.clone()), &request("p1", -2)).unwrap();
    assert_eq!(o.basket, basket_of("u1", vec![line("p1", "r1", 1.0, 7)]));
    let o = remove_item_from_basket("u1", Some(stored.clone()), &request("p3", 0)).unwrap();
    assert_eq!(o, Outcome { basket: stored, persist: false });
    let o = remove_item_from_basket("u2", None, &request("p3", -1)).unwrap();
    assert_eq!(o, Outcome { basket: basket_of("u2", vec![]), persist: false });
}

#[test]
fn remove_past_largest_quantity_is_rejected() {
    let stored = basket_of("u1", vec![line("p1", "r1", 1.0, i32::MAX - 1)]);
    let r = remove_item_from_basket("u1", Some(stored), &request("p1", -2));
    assert_eq!(r, Err(BasketError::QuantityOverflow));
}

#[test]
fn clear_keeps_owner_and_record() {
    let stored = basket_of("u1", vec![line("p1", "r1", 1.0, 5), line("p2", "r1", 1.0, 1)]);
    assert_eq!(clear_basket(Some(stored)), Some(basket_of("u1", vec![])));
    assert_eq!(clear_basket(None), None);
}

#[test]
fn scenario_add_reject_remove() {
    let first = add_item_to_basket("u1", None, &request("p1", 2), Some(product("p1", "r1", 9.5)))
        .unwrap();
    assert!(first.persist);
    assert_eq!(first.basket.user_id, "u1");
    assert_eq!(first.basket.items.len(), 1);
    assert_eq!(first.basket.items[0].id, "p1");
    assert_eq!(first.basket.items[0].quantity, 2);
    assert_eq!(first.basket.items[0].restaurant_id, "r1");
    let stored = first.basket;

    let second = add_item_to_basket(
        "u1",
        Some(stored.clone()),
        &request("p2", 1),
        Some(product("p2", "r2", 4.0)),
    );
    assert_eq!(second, Err(BasketError::NotSameRestaurant));

    let third = remove_item_from_basket("u1", Some(stored), &request("p1", 5)).unwrap();
    assert!(third.persist);
    assert_eq!(third.basket, basket_of("u1", vec![]));
}

#[test]
fn find_item_gives_first_match() {
    let items = vec![line("a", "r", 1.0, 1), line("b", "r", 1.0, 1), line("b", "r", 1.0, 2)];
    assert_eq!(find_item(&items, &"b".to_string()), Some(1));
    assert_eq!(find_item(&items, &"z".to_string()), None);
}

#[test]
fn well_formedness_is_checked() {
    assert!(basket_of("u", vec![]).is_well_formed());
    assert!(basket_of("u", vec![line("a", "r", 1.0, 1), line("b", "r", 1.0, 2)]).is_well_formed());
    assert!(!basket_of("u", vec![line("a", "r", 1.0, 0)]).is_well_formed());
    assert!(!basket_of("u", vec![line("a", "r", 1.0, 1), line("a", "r", 1.0, 1)]).is_well_formed());
    assert!(!basket_of("u", vec![line("a", "r", 1.0, 1), line("b", "s", 1.0, 1)]).is_well_formed());
}

#[test]
fn user_id_is_required() {
    assert_eq!(get_user_id(Some("u1".to_string())), Ok("u1".to_string()));
    assert_eq!(get_user_id(None), Err(BasketError::Unauthorized));
}

#[test]
fn error_codes_and_messages() {
    assert_eq!(BasketError::Unauthorized.code(), "UNAUTHORIZED");
    assert_eq!(BasketError::ProductNotFound.code(), "PRODUCT_NOT_FOUND");
    assert_eq!(BasketError::NotSameRestaurant.code(), "NOT_SAME_RESTAURANT");
    assert_eq!(BasketError::QuantityOverflow.code(), "QUANTITY_OVERFLOW");
    assert_eq!(BasketError::Store.code(), "STORE_ERROR");
    assert_eq!(BasketError::ProductNotFound.message(), "Product not found");
    assert_eq!(
        BasketError::NotSameRestaurant.message(),
        "All items in the basket must be from the same restaurant"
    );
}

#[test]
fn store_key_is_prefixed() {
    assert_eq!(basket_key("u1"), "basket:u1");
    assert_eq!(basket_key(""), "basket:");
}
