//! Membership reconciliation: which configured groups the account has not
//! joined.
use vstd::prelude::*;
use crate::config::contains_i64;

verus! {

/// The groups of `configured` that are not among `joined`, in the order of
/// `configured`.
pub fn groups_not_joined(configured: &Vec<i64>, joined: &Vec<i64>) -> (r: Vec<i64>)
    ensures
        r@ == configured@.filter(|g: i64| !joined@.contains(g)),
{
    let ghost pred = |g: i64| !joined@.contains(g);
    let mut out: Vec<i64> = Vec::new();
    let mut i: usize = 0;
    while i < configured.len()
        invariant
            i <= configured@.len(),
            pred == (|g: i64| !joined@.contains(g)),
            out@ == configured@.subrange(0, i as int).filter(pred),
        decreases configured@.len() - i,
    {
        let g = configured[i];
        proof {
            let next = configured@.subrange(0, i + 1);
            assert(next.drop_last() =~= configured@.subrange(0, i as int));
            assert(next.last() == g);
            reveal(Seq::filter);
        }
        if !contains_i64(joined, g) {
            out.push(g);
        }
        i = i + 1;
    }
    assert(configured@.subrange(0, i as int) =~= configured@);
    out
}

} // verus!
