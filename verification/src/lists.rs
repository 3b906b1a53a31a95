//! Lists.

use vstd::prelude::*;

verus! {

/// A list from its end to its beginning.
pub fn reversed<T>(list: Vec<T>) -> (r: Vec<T>)
    ensures
        r@ == list@.reverse(),
{
    let mut left = list;
    let mut r: Vec<T> = Vec::new();
    let ghost all = left@;
    while left.len() > 0
        invariant
            left@.len() + r@.len() == all.len(),
            left@ == all.take(left@.len() as int),
            r@ =~= all.reverse().take(r@.len() as int),
        decreases left@.len(),
    {
        let ghost n = left@.len();
        match left.pop() {
            Some(item) => {
                r.push(item);
            },
            None => {},
        }
        assert(left@ =~= all.take(n - 1));
        assert(r@ =~= all.reverse().take(r@.len() as int));
    }
    assert(r@ =~= all.reverse());
    r
}

} // verus!
