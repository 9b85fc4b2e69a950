//! Where a basket lives in the key-value store.

use vstd::prelude::*;

verus! {

/// The text that every basket key starts with.
pub open spec fn key_prefix() -> Seq<char> {
    seq!['b', 'a', 's', 'k', 'e', 't', ':']
}

/// The store key of the basket of `user_id`: `basket:<user_id>`.
pub fn basket_key(user_id: &str) -> (r: String)
    ensures
        r@ == key_prefix() + user_id@,
{
    let mut key = String::new();
    key.append("basket:");
    proof {
        reveal_strlit("basket:");
    }
    assert(key@ =~= key_prefix());
    key.append(user_id);
    key
}

} // verus!
