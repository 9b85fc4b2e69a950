//! What holds of the basket mutations for every input.

use vstd::prelude::*;

use crate::engine::{added, removed};
use crate::model::{
    has_item, is_first_match, lemma_index_of, positive_and_same_restaurant, well_formed_items,
    BasketError, BasketItem, ProductSnapshot,
};

verus! {

/// In a well-formed basket, the line at `k` is the first, and only, line of
/// its product.
proof fn lemma_line_is_first(items: Seq<BasketItem>, k: int)
    requires
        well_formed_items(items),
        0 <= k < items.len(),
    ensures
        is_first_match(items, items[k].id@, k),
        has_item(items, items[k].id@),
{
    assert forall|j: int| 0 <= j < k implies items[j].id@ != items[k].id@ by {}
}

/// Adding a positive quantity of a product to an empty basket gives a single
/// line, built from the catalog's snapshot, with that quantity.
pub proof fn lemma_add_to_empty(id: Seq<char>, delta: i32, p: ProductSnapshot)
    requires
        delta > 0,
    ensures
        added(Seq::empty(), id, delta, Some(p)) == Ok::<Seq<BasketItem>, BasketError>(
            seq![p.line(delta)],
        ),
{
    assert(!has_item(Seq::<BasketItem>::empty(), id));
    assert(Seq::<BasketItem>::empty().push(p.line(delta)) =~= seq![p.line(delta)]);
}

/// Adding to a product that a well-formed basket already holds changes that
/// line's quantity by the amount and keeps every other field of it, and every
/// other line, as it was; the catalog's answer plays no part.
pub proof fn lemma_add_existing(
    items: Seq<BasketItem>,
    k: int,
    delta: i32,
    fetched: Option<ProductSnapshot>,
)
    requires
        well_formed_items(items),
        0 <= k < items.len(),
        0 < items[k].quantity + delta <= i32::MAX,
    ensures
        added(items, items[k].id@, delta, fetched) == Ok::<Seq<BasketItem>, BasketError>(
            items.update(k, (BasketItem { quantity: (items[k].quantity + delta) as i32, ..items[k] })),
        ),
{
    lemma_line_is_first(items, k);
    lemma_index_of(items, items[k].id@, k);
}

/// Adding an amount that takes a line of a well-formed basket to zero or
/// below drops the line.
pub proof fn lemma_add_existing_to_nothing(
    items: Seq<BasketItem>,
    k: int,
    delta: i32,
    fetched: Option<ProductSnapshot>,
)
    requires
        well_formed_items(items),
        0 <= k < items.len(),
        items[k].quantity + delta <= 0,
    ensures
        added(items, items[k].id@, delta, fetched) == Ok::<Seq<BasketItem>, BasketError>(
            items.remove(k),
        ),
{
    assert(positive_and_same_restaurant(items, k));
    lemma_line_is_first(items, k);
    lemma_index_of(items, items[k].id@, k);
}

/// Adding a product that the basket does not hold, from another restaurant
/// than that of its lines, fails with `NotSameRestaurant`, whatever the
/// amount.
pub proof fn lemma_add_other_restaurant(
    items: Seq<BasketItem>,
    id: Seq<char>,
    delta: i32,
    p: ProductSnapshot,
)
    requires
        items.len() > 0,
        !has_item(items, id),
        p.restaurant_id@ != items[0].restaurant_id@,
    ensures
        added(items, id, delta, Some(p)) == Err::<Seq<BasketItem>, BasketError>(
            BasketError::NotSameRestaurant,
        ),
{
}

/// Adding a product that the basket does not hold and the catalog did not
/// give fails with `ProductNotFound`, whatever the amount.
pub proof fn lemma_add_not_found(items: Seq<BasketItem>, id: Seq<char>, delta: i32)
    requires
        !has_item(items, id),
    ensures
        added(items, id, delta, None) == Err::<Seq<BasketItem>, BasketError>(
            BasketError::ProductNotFound,
        ),
{
}

/// Taking out at least a line's quantity drops the line.
pub proof fn lemma_remove_all(items: Seq<BasketItem>, k: int, delta: i32)
    requires
        well_formed_items(items),
        0 <= k < items.len(),
        delta >= items[k].quantity,
    ensures
        removed(items, items[k].id@, delta) == Ok::<Seq<BasketItem>, BasketError>(items.remove(k)),
{
    lemma_line_is_first(items, k);
    lemma_index_of(items, items[k].id@, k);
}

/// Taking out less than a line's quantity lowers it by that much.
pub proof fn lemma_remove_some(items: Seq<BasketItem>, k: int, delta: i32)
    requires
        well_formed_items(items),
        0 <= k < items.len(),
        delta < items[k].quantity,
        items[k].quantity - delta <= i32::MAX,
    ensures
        removed(items, items[k].id@, delta) == Ok::<Seq<BasketItem>, BasketError>(
            items.update(k, items[k].with_quantity((items[k].quantity - delta) as i32)),
        ),
{
    lemma_line_is_first(items, k);
    lemma_index_of(items, items[k].id@, k);
}

/// Taking out a product that the basket does not hold changes nothing.
pub proof fn lemma_remove_absent(items: Seq<BasketItem>, id: Seq<char>, delta: i32)
    requires
        !has_item(items, id),
    ensures
        removed(items, id, delta) == Ok::<Seq<BasketItem>, BasketError>(items),
{
}

/// Giving one line of a well-formed basket another positive quantity keeps
/// it well formed.
proof fn lemma_update_well_formed(items: Seq<BasketItem>, k: int, q: i32)
    requires
        well_formed_items(items),
        0 <= k < items.len(),
        q > 0,
    ensures
        well_formed_items(items.update(k, items[k].with_quantity(q))),
{
    let n = items.update(k, items[k].with_quantity(q));
    assert(positive_and_same_restaurant(items, 0));
    assert forall|j: int| 0 <= j < n.len() implies positive_and_same_restaurant(n, j) by {
        assert(positive_and_same_restaurant(items, j));
    }
    assert forall|j: int, l: int| 0 <= j < l < n.len() implies n[j].id@ != n[l].id@ by {
        assert(items[j].id@ != items[l].id@);
    }
}

/// Dropping one line of a well-formed basket keeps it well formed.
proof fn lemma_remove_well_formed(items: Seq<BasketItem>, k: int)
    requires
        well_formed_items(items),
        0 <= k < items.len(),
    ensures
        well_formed_items(items.remove(k)),
{
    let n = items.remove(k);
    assert(positive_and_same_restaurant(items, 0));
    assert forall|j: int| 0 <= j < n.len() implies positive_and_same_restaurant(n, j) by {
        assert(positive_and_same_restaurant(items, j));
        assert(positive_and_same_restaurant(items, j + 1));
        if k == 0 {
            assert(positive_and_same_restaurant(items, 1));
        }
    }
    assert forall|j: int, l: int| 0 <= j < l < n.len() implies n[j].id@ != n[l].id@ by {
        if j < k {
            if l >= k {
                assert(items[j].id@ != items[l + 1].id@);
            }
        } else {
            assert(items[j + 1].id@ != items[l + 1].id@);
        }
    }
}

/// An Add that succeeds on a well-formed basket leaves it well formed, where
/// the catalog's product carries the id that was asked for.
pub proof fn lemma_added_well_formed(
    items: Seq<BasketItem>,
    id: Seq<char>,
    delta: i32,
    fetched: Option<ProductSnapshot>,
)
    requires
        well_formed_items(items),
        fetched is Some ==> fetched->Some_0.id@ == id,
    ensures
        added(items, id, delta, fetched) is Ok ==> well_formed_items(
            added(items, id, delta, fetched)->Ok_0,
        ),
{
    let r = added(items, id, delta, fetched);
    if r is Ok {
        let n = r->Ok_0;
        if has_item(items, id) {
            let k = choose|k: int| 0 <= k < items.len() && items[k].id@ == id;
            lemma_line_is_first(items, k);
            lemma_index_of(items, id, k);
            let q = items[k].quantity + delta;
            if q <= 0 {
                lemma_remove_well_formed(items, k);
            } else {
                lemma_update_well_formed(items, k, q as i32);
            }
        } else if delta > 0 {
            let p = fetched->Some_0;
            assert(n == items.push(p.line(delta)));
            assert forall|j: int| 0 <= j < n.len() implies positive_and_same_restaurant(n, j) by {
                if j < items.len() {
                    assert(positive_and_same_restaurant(items, j));
                }
            }
            assert forall|j: int, l: int| 0 <= j < l < n.len() implies n[j].id@ != n[l].id@ by {
                if l == items.len() {
                    assert(!(0 <= j < items.len() && items[j].id@ == id));
                }
            }
        }
    }
}

/// A Remove that succeeds on a well-formed basket leaves it well formed.
pub proof fn lemma_removed_well_formed(items: Seq<BasketItem>, id: Seq<char>, delta: i32)
    requires
        well_formed_items(items),
    ensures
        removed(items, id, delta) is Ok ==> well_formed_items(removed(items, id, delta)->Ok_0),
{
    if has_item(items, id) && removed(items, id, delta) is Ok {
        let k = choose|k: int| 0 <= k < items.len() && items[k].id@ == id;
        lemma_line_is_first(items, k);
        lemma_index_of(items, id, k);
        if items[k].quantity > delta {
            lemma_update_well_formed(items, k, (items[k].quantity - delta) as i32);
        } else {
            lemma_remove_well_formed(items, k);
        }
    }
}

} // verus!
