//! The decisions of each basket request. A request starts from the record
//! that the store holds for the user, if any, and ends in the basket to reply
//! with and whether that basket must be written back, or in an error, in
//! which case nothing is written.
//!
//! A request reads the record, decides, and writes the whole record back;
//! nothing here makes that cycle atomic. Two requests of one user that run
//! at once can both read the same record, and the later write then loses the
//! earlier one. Callers that need no lost updates serialise the requests of a
//! user, or write only where the record is still the one they read.

use vstd::prelude::*;

use crate::model::{
    has_item, index_of, is_first_match, lemma_index_of, Basket, BasketError, BasketItem,
    ProductSnapshot, RequestItem,
};

verus! {

/// What a request that went through hands back.
#[derive(Clone, Debug, PartialEq, Eq)]
pub struct Outcome {
    /// The basket to reply with.
    pub basket: Basket,
    /// Whether `basket` replaces the stored record.
    pub persist: bool,
}

/// The lines that a request starts from: those of the stored record, or none.
pub open spec fn start_items(stored: Option<Basket>) -> Seq<BasketItem> {
    match stored {
        Some(b) => b.items@,
        None => Seq::empty(),
    }
}

/// The owner of the basket that a request starts from: that of the stored
/// record, or the caller.
pub open spec fn owner(user_id: Seq<char>, stored: Option<Basket>) -> Seq<char> {
    match stored {
        Some(b) => b.user_id@,
        None => user_id,
    }
}

/// The lines after adding `delta` of product `id` to `items`, where `fetched`
/// is what the catalog gave for `id`.
///
/// A product already in the basket keeps its line's attributes and its
/// quantity changes by `delta`; where that leaves it at zero or below the
/// line is dropped, since no line holds such a quantity. A new product is
/// looked up first (`ProductNotFound` where the catalog gave nothing), then
/// held to the restaurant of the first line (`NotSameRestaurant`); it is then
/// appended where `delta` is positive, and changes nothing otherwise.
pub open spec fn added(
    items: Seq<BasketItem>,
    id: Seq<char>,
    delta: i32,
    fetched: Option<ProductSnapshot>,
) -> Result<Seq<BasketItem>, BasketError> {
    if has_item(items, id) {
        let i = index_of(items, id);
        let q = items[i].quantity + delta;
        if q > i32::MAX || q < i32::MIN {
            Err(BasketError::QuantityOverflow)
        } else if q <= 0 {
            Ok(items.remove(i))
        } else {
            Ok(items.update(i, items[i].with_quantity(q as i32)))
        }
    } else {
        match fetched {
            None => Err(BasketError::ProductNotFound),
            Some(p) => {
                if items.len() > 0 && items[0].restaurant_id@ != p.restaurant_id@ {
                    Err(BasketError::NotSameRestaurant)
                } else if delta <= 0 {
                    Ok(items)
                } else {
                    Ok(items.push(p.line(delta)))
                }
            },
        }
    }
}

/// Whether a successful Add writes the basket back: always, but for a new
/// product with a `delta` of zero or below, which changes nothing.
pub open spec fn add_writes(items: Seq<BasketItem>, id: Seq<char>, delta: i32) -> bool {
    has_item(items, id) || delta > 0
}

/// The lines after taking `delta` of product `id` out of `items`. A line
/// whose quantity exceeds `delta` is lowered by it, any other is dropped; a
/// product not in the basket changes nothing.
pub open spec fn removed(items: Seq<BasketItem>, id: Seq<char>, delta: i32) -> Result<
    Seq<BasketItem>,
    BasketError,
> {
    if !has_item(items, id) {
        Ok(items)
    } else {
        let i = index_of(items, id);
        if items[i].quantity > delta {
            if items[i].quantity - delta > i32::MAX {
                Err(BasketError::QuantityOverflow)
            } else {
                Ok(items.update(i, items[i].with_quantity((items[i].quantity - delta) as i32)))
            }
        } else {
            Ok(items.remove(i))
        }
    }
}

/// The position of the first line whose product id is `id`.
pub fn find_item(items: &Vec<BasketItem>, id: &String) -> (r: Option<usize>)
    ensures
        match r {
            Some(i) => is_first_match(items@, id@, i as int),
            None => !has_item(items@, id@),
        },
{
    let mut i: usize = 0;
    while i < items.len()
        invariant
            0 <= i <= items@.len(),
            forall|j: int| 0 <= j < i ==> items@[j].id@ != id@,
        decreases items@.len() - i,
    {
        if items[i].id == *id {
            return Some(i);
        }
        i = i + 1;
    }
    None
}

/// Sets the quantity of line `i` to `q`, leaving its other fields and the
/// other lines as they are.
fn set_quantity(items: &mut Vec<BasketItem>, i: usize, q: i32)
    requires
        i < old(items)@.len(),
    ensures
        final(items)@ == old(items)@.update(i as int, old(items)@[i as int].with_quantity(q)),
{
    let it = items.remove(i);
    items.insert(i, BasketItem { quantity: q, ..it });
    assert(items@ =~= old(items)@.update(i as int, old(items)@[i as int].with_quantity(q)));
}

/// The basket that a request starts from: the stored one, or an empty basket
/// of `user_id` where none is stored.
fn current_basket(user_id: &str, stored: Option<Basket>) -> (r: Basket)
    ensures
        r.user_id@ == owner(user_id@, stored),
        r.items@ == start_items(stored),
        stored is Some ==> r == stored->Some_0,
{
    match stored {
        Some(b) => b,
        None => Basket { user_id: user_id.to_owned(), items: Vec::new() },
    }
}

/// The identity that came with a request, or `Unauthorized` where none did.
pub fn get_user_id(header: Option<String>) -> (r: Result<String, BasketError>)
    ensures
        match header {
            Some(u) => r == Ok::<String, BasketError>(u),
            None => r == Err::<String, BasketError>(BasketError::Unauthorized),
        },
{
    match header {
        Some(u) => Ok(u),
        None => Err(BasketError::Unauthorized),
    }
}

/// Get: the stored basket, or an empty basket of `user_id`; nothing is
/// written either way.
pub fn get_basket(user_id: &str, stored: Option<Basket>) -> (r: Outcome)
    ensures
        r.basket.user_id@ == owner(user_id@, stored),
        r.basket.items@ == start_items(stored),
        stored is Some ==> r.basket == stored->Some_0,
        stored is None ==> r.basket.user_id@ == user_id@ && r.basket.items@.len() == 0,
        !r.persist,
{
    Outcome { basket: current_basket(user_id, stored), persist: false }
}

/// Whether an Add of `req` onto `stored` asks the catalog for the product:
/// exactly when the basket has no line for it.
pub fn add_needs_product(stored: &Option<Basket>, req: &RequestItem) -> (r: bool)
    ensures
        r == !has_item(start_items(*stored), req.id@),
        !r ==> forall|f: Option<ProductSnapshot>|
            #[trigger] added(start_items(*stored), req.id@, req.quantity, f) == added(
                start_items(*stored),
                req.id@,
                req.quantity,
                None,
            ),
{
    match stored {
        Some(b) => find_item(&b.items, &req.id).is_none(),
        None => true,
    }
}

/// Add: `req.quantity` more of product `req.id`, where `fetched` is what the
/// catalog gave for it. On success the new basket is written back, unless
/// nothing changed; on an error nothing changes.
pub fn add_item_to_basket(
    user_id: &str,
    stored: Option<Basket>,
    req: &RequestItem,
    fetched: Option<ProductSnapshot>,
) -> (r: Result<Outcome, BasketError>)
    ensures
        match added(start_items(stored), req.id@, req.quantity, fetched) {
            Ok(items) => {
                &&& r is Ok
                &&& r->Ok_0.basket.items@ == items
                &&& r->Ok_0.basket.user_id@ == owner(user_id@, stored)
                &&& r->Ok_0.persist == add_writes(start_items(stored), req.id@, req.quantity)
            },
            Err(e) => r == Err::<Outcome, BasketError>(e),
        },
{
    let d = req.quantity;
    let mut basket = current_basket(user_id, stored);
    match find_item(&basket.items, &req.id) {
        Some(i) => {
            proof {
                lemma_index_of(basket.items@, req.id@, i as int);
            }
            let q = basket.items[i].quantity;
            if (d > 0 && q > i32::MAX - d) || (d < 0 && q < i32::MIN - d) {
                return Err(BasketError::QuantityOverflow);
            }
            if q + d <= 0 {
                basket.items.remove(i);
            } else {
                set_quantity(&mut basket.items, i, q + d);
            }
            Ok(Outcome { basket, persist: true })
        },
        None => match fetched {
            None => Err(BasketError::ProductNotFound),
            Some(p) => {
                if basket.items.len() > 0 && basket.items[0].restaurant_id != p.restaurant_id {
                    return Err(BasketError::NotSameRestaurant);
                }
                if d <= 0 {
                    return Ok(Outcome { basket, persist: false });
                }
                basket.items.push(p.into_line(d));
                Ok(Outcome { basket, persist: true })
            },
        },
    }
}

/// Remove: `req.quantity` of product `req.id` out of the basket. The basket
/// is written back only where a line changed.
pub fn remove_item_from_basket(user_id: &str, stored: Option<Basket>, req: &RequestItem) -> (r:
    Result<Outcome, BasketError>)
    ensures
        match removed(start_items(stored), req.id@, req.quantity) {
            Ok(items) => {
                &&& r is Ok
                &&& r->Ok_0.basket.items@ == items
                &&& r->Ok_0.basket.user_id@ == owner(user_id@, stored)
                &&& r->Ok_0.persist == has_item(start_items(stored), req.id@)
            },
            Err(e) => r == Err::<Outcome, BasketError>(e),
        },
{
    let d = req.quantity;
    let mut basket = current_basket(user_id, stored);
    match find_item(&basket.items, &req.id) {
        Some(i) => {
            proof {
                lemma_index_of(basket.items@, req.id@, i as int);
            }
            let q = basket.items[i].quantity;
            if q > d {
                if d < 0 && q > i32::MAX + d {
                    return Err(BasketError::QuantityOverflow);
                }
                set_quantity(&mut basket.items, i, q - d);
            } else {
                basket.items.remove(i);
            }
            Ok(Outcome { basket, persist: true })
        },
        None => Ok(Outcome { basket, persist: false }),
    }
}

/// Clear: the stored basket with no lines, to be written back; where none is
/// stored, nothing.
pub fn clear_basket(stored: Option<Basket>) -> (r: Option<Basket>)
    ensures
        match stored {
            Some(b) => r is Some && r->Some_0.user_id == b.user_id && r->Some_0.items@.len() == 0,
            None => r is None,
        },
{
    match stored {
        Some(mut b) => {
            b.items.clear();
            Some(b)
        },
        None => None,
    }
}

} // verus!
