//! Applying a caller-supplied fallible function across a collection.

use vstd::prelude::*;

verus! {

/// Applies `f` to every element of `collection` in order and collects each
/// outcome, successful or not.
pub fn apply_to_collection<T, O, E, F>(collection: Vec<T>, f: F) -> (results: Vec<Result<O, E>>)
    where
        F: Fn(T) -> Result<O, E>,
    requires
        forall|i: int|
            #![trigger collection@[i]]
            0 <= i < collection@.len() ==> call_requires(f, (collection@[i],)),
    ensures
        results@.len() == collection@.len(),
        forall|i: int|
            #![trigger results@[i]]
            0 <= i < results@.len() ==> call_ensures(f, (collection@[i],), results@[i]),
{
    let ghost orig = collection@;
    let mut items = collection;
    let mut results: Vec<Result<O, E>> = Vec::new();
    while items.len() > 0
        invariant
            results@.len() + items@.len() == orig.len(),
            items@ =~= orig.subrange(results@.len() as int, orig.len() as int),
            forall|i: int| #![trigger orig[i]] 0 <= i < orig.len() ==> call_requires(f, (orig[i],)),
            forall|i: int|
                #![trigger results@[i]]
                0 <= i < results@.len() ==> call_ensures(f, (orig[i],), results@[i]),
        decreases items@.len(),
    {
        let ghost done = results@.len() as int;
        let item = items.remove(0);
        proof {
            assert(item == orig[done]);
        }
        let r = f(item);
        results.push(r);
        proof {
            assert(items@ =~= orig.subrange(results@.len() as int, orig.len() as int));
        }
    }
    results
}

} // verus!
