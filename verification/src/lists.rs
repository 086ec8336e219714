//! Lists that are taken apart from the front.

use vstd::prelude::*;

verus! {

/// Turns a list round, so that what came first can be taken off the end.
pub(crate) fn reversed<T>(list: Vec<T>) -> (round: Vec<T>)
    ensures
        round@ == list@.reverse(),
{
    let ghost all = list@;
    let mut rest = list;
    let mut round: Vec<T> = Vec::new();
    while rest.len() > 0
        invariant
            rest@.len() <= all.len(),
            rest@ == all.take(rest@.len() as int),
            round@ == all.skip(rest@.len() as int).reverse(),
        decreases rest@.len(),
    {
        let ghost before = round@;
        if let Some(last) = rest.pop() {
            round.push(last);
            proof {
                assert(all.skip(rest@.len() as int).reverse() =~= before.push(last));
                assert(rest@ =~= all.take(rest@.len() as int));
            }
        }
    }
    assert(all.skip(0) =~= all);
    round
}

} // verus!
