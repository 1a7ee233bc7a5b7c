//! Free-standing conversion helpers.

use std::collections::HashMap;

use vstd::prelude::*;

verus! {

/// Turn a `Vec<T>` into a `HashMap<usize, T>` keyed by each element's
/// index.
pub fn vec_to_i_hashmap<T>(vec: Vec<T>) -> (m: HashMap<usize, T>)
    ensures
        m@.dom() =~= Set::new(|i: usize| i < vec@.len()),
        forall|i: usize| i < vec@.len() ==> #[trigger] m@[i] == vec@[i as int],
{
    crate::utils::vec_to_i_hashmap(vec)
}

} // verus!
