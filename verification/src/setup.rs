//! Account setup: the computation behind the one-time bootstrap that
//! registers an agent, buys a starting fleet and sends it to an asteroid
//! field. The network calls live with the caller; the decision of how long
//! to wait for the whole fleet to arrive is made here.
use vstd::prelude::*;

verus! {

/// The one-time account bootstrap.
pub struct Setup {}

impl Setup {
    /// How long to wait until every ship has arrived: the largest of the
    /// fleet's travel times; nothing to wait for when no ship travelled.
    pub fn max_wait(etas: &Vec<u64>) -> (r: Option<u64>)
        ensures
            (r is Some) == (etas@.len() > 0),
            r matches Some(m) ==> {
                &&& exists|i: int| 0 <= i < etas@.len() && etas@[i] == m
                &&& forall|i: int| 0 <= i < etas@.len() ==> etas@[i] <= m
            },
    {
        if etas.len() == 0 {
            return None;
        }
        let mut best: u64 = etas[0];
        let ghost mut bi: int = 0;
        let mut k: usize = 1;
        while k < etas.len()
            invariant
                1 <= k <= etas@.len(),
                0 <= bi < k,
                etas@[bi] == best,
                forall|i: int| 0 <= i < k ==> etas@[i] <= best,
            decreases etas@.len() - k,
        {
            if etas[k] > best {
                best = etas[k];
                proof {
                    bi = k as int;
                }
            }
            k = k + 1;
        }
        proof {
            assert(exists|i: int| 0 <= i < etas@.len() && etas@[i] == best) by {
                assert(etas@[bi] == best);
            }
        }
        Some(best)
    }
}

} // verus!
