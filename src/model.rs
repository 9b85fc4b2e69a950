//! The basket record, its line items, the catalog's product snapshot, and the
//! errors that a request can end in.

use vstd::prelude::*;

verus! {

/// One line of a basket: a product, how many of it, and the product's
/// attributes as the catalog gave them when the line was first added.
#[derive(Clone, Debug, PartialEq, Eq)]
pub struct BasketItem {
    pub id: String,
    pub quantity: i32,
    pub label: String,
    pub description: String,
    /// The price, as the bit pattern of an IEEE-754 single (`f32::to_bits`).
    pub price_bits: u32,
    pub category_id: String,
    pub restaurant_id: String,
}

/// The basket of one user: its owner and its lines, in the order in which
/// their products were first added.
#[derive(Clone, Debug, PartialEq, Eq)]
pub struct Basket {
    pub user_id: String,
    pub items: Vec<BasketItem>,
}

/// A product as the catalog describes it.
#[derive(Clone, Debug, PartialEq, Eq)]
pub struct ProductSnapshot {
    pub id: String,
    pub label: String,
    pub description: String,
    /// The price, as the bit pattern of an IEEE-754 single (`f32::to_bits`).
    pub price_bits: u32,
    pub visible: bool,
    pub quantity: i32,
    pub category_id: String,
    pub restaurant_id: String,
}

/// A requested change: a product and by how much its quantity changes.
#[derive(Clone, Debug, PartialEq, Eq)]
pub struct RequestItem {
    pub id: String,
    pub quantity: i32,
}

/// Why a request was turned down.
#[derive(Clone, Copy, Debug, PartialEq, Eq, Structural)]
pub enum BasketError {
    /// No caller identity came with the request.
    Unauthorized,
    /// The catalog did not give the product.
    ProductNotFound,
    /// The product belongs to another restaurant than the basket's lines.
    NotSameRestaurant,
    /// The new quantity of a line would not fit in an `i32`.
    QuantityOverflow,
    /// The store could not be read or written, or held a record that does
    /// not decode to a well-formed basket.
    Store,
}

impl BasketError {
    /// The machine-readable kind of the error.
    pub open spec fn code_spec(self) -> Seq<char> {
        match self {
            BasketError::Unauthorized => "UNAUTHORIZED"@,
            BasketError::ProductNotFound => "PRODUCT_NOT_FOUND"@,
            BasketError::NotSameRestaurant => "NOT_SAME_RESTAURANT"@,
            BasketError::QuantityOverflow => "QUANTITY_OVERFLOW"@,
            BasketError::Store => "STORE_ERROR"@,
        }
    }

    /// The machine-readable kind of the error.
    pub fn code(&self) -> (r: &'static str)
        ensures
            r@ == self.code_spec(),
    {
        match self {
            BasketError::Unauthorized => "UNAUTHORIZED",
            BasketError::ProductNotFound => "PRODUCT_NOT_FOUND",
            BasketError::NotSameRestaurant => "NOT_SAME_RESTAURANT",
            BasketError::QuantityOverflow => "QUANTITY_OVERFLOW",
            BasketError::Store => "STORE_ERROR",
        }
    }

    /// A sentence for people.
    pub open spec fn message_spec(self) -> Seq<char> {
        match self {
            BasketError::Unauthorized => "Unauthorized"@,
            BasketError::ProductNotFound => "Product not found"@,
            BasketError::NotSameRestaurant => "All items in the basket must be from the same restaurant"@,
            BasketError::QuantityOverflow => "The new quantity does not fit in a basket line"@,
            BasketError::Store => "The basket store failed"@,
        }
    }

    /// A sentence for people.
    pub fn message(&self) -> (r: &'static str)
        ensures
            r@ == self.message_spec(),
    {
        match self {
            BasketError::Unauthorized => "Unauthorized",
            BasketError::ProductNotFound => "Product not found",
            BasketError::NotSameRestaurant => "All items in the basket must be from the same restaurant",
            BasketError::QuantityOverflow => "The new quantity does not fit in a basket line",
            BasketError::Store => "The basket store failed",
        }
    }
}

impl BasketItem {
    /// This line with its quantity set to `q`.
    pub open spec fn with_quantity(self, q: i32) -> BasketItem {
        BasketItem { quantity: q, ..self }
    }
}

impl ProductSnapshot {
    /// The line that a first addition of this product makes, with quantity `q`.
    pub open spec fn line(self, q: i32) -> BasketItem {
        BasketItem {
            id: self.id,
            quantity: q,
            label: self.label,
            description: self.description,
            price_bits: self.price_bits,
            category_id: self.category_id,
            restaurant_id: self.restaurant_id,
        }
    }

    /// Builds the line that a first addition of this product makes.
    pub fn into_line(self, q: i32) -> (r: BasketItem)
        ensures
            r == self.line(q),
    {
        BasketItem {
            id: self.id,
            quantity: q,
            label: self.label,
            description: self.description,
            price_bits: self.price_bits,
            category_id: self.category_id,
            restaurant_id: self.restaurant_id,
        }
    }
}

/// `i` is the first position in `items` whose product id is `id`.
pub open spec fn is_first_match(items: Seq<BasketItem>, id: Seq<char>, i: int) -> bool {
    &&& 0 <= i < items.len()
    &&& items[i].id@ == id
    &&& forall|j: int| 0 <= j < i ==> items[j].id@ != id
}

/// Some line of `items` has the product id `id`.
pub open spec fn has_item(items: Seq<BasketItem>, id: Seq<char>) -> bool {
    exists|i: int| 0 <= i < items.len() && items[i].id@ == id
}

/// The first position in `items` whose product id is `id`.
pub open spec fn index_of(items: Seq<BasketItem>, id: Seq<char>) -> int {
    choose|i: int| is_first_match(items, id, i)
}

/// There is only one first match.
pub proof fn lemma_index_of(items: Seq<BasketItem>, id: Seq<char>, i: int)
    requires
        is_first_match(items, id, i),
    ensures
        index_of(items, id) == i,
{
    let k = index_of(items, id);
    assert(is_first_match(items, id, k));
    if k < i {
        assert(items[k].id@ != id);
    } else if i < k {
        assert(items[i].id@ != id);
    }
}

impl Basket {
    /// Every line has a positive quantity, no two lines share a product id,
    /// and all lines come from the restaurant of the first one.
    pub open spec fn wf(&self) -> bool {
        well_formed_items(self.items@)
    }

    /// Whether the basket is well formed.
    pub fn is_well_formed(&self) -> (r: bool)
        ensures
            r == self.wf(),
    {
        let n = self.items.len();
        let mut i: usize = 0;
        while i < n
            invariant
                n == self.items@.len(),
                0 <= i <= n,
                forall|k: int| 0 <= k < i ==> positive_and_same_restaurant(self.items@, k),
                forall|k: int, l: int| 0 <= k < l < n && k < i ==> self.items@[k].id@ != self.items@[l].id@,
            decreases n - i,
        {
            let it = &self.items[i];
            if it.quantity <= 0 || it.restaurant_id != self.items[0].restaurant_id {
                assert(!positive_and_same_restaurant(self.items@, i as int));
                return false;
            }
            let mut j: usize = i + 1;
            while j < n
                invariant
                    n == self.items@.len(),
                    0 <= i < j <= n,
                    it == self.items@[i as int],
                    forall|l: int| i < l < j ==> self.items@[i as int].id@ != self.items@[l].id@,
                decreases n - j,
            {
                if it.id == self.items[j].id {
                    assert(self.items@[i as int].id@ == self.items@[j as int].id@);
                    return false;
                }
                j = j + 1;
            }
            i = i + 1;
        }
        true
    }
}

/// Line `k` has a positive quantity and the restaurant of line 0.
pub open spec fn positive_and_same_restaurant(items: Seq<BasketItem>, k: int) -> bool {
    items[k].quantity > 0 && items[k].restaurant_id@ == items[0].restaurant_id@
}

/// Positive quantities, unique product ids, one restaurant.
pub open spec fn well_formed_items(items: Seq<BasketItem>) -> bool {
    &&& forall|k: int| 0 <= k < items.len() ==> positive_and_same_restaurant(items, k)
    &&& forall|k: int, l: int|
        0 <= k < l < items.len() ==> items[k].id@ != items[l].id@
}

} // verus!
