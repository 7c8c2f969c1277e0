//! A simulated adapter: the verified implementation of the adapter
//! contract. It keeps the trace of driven cycles in an ordinary
//! vector and answers reads from a seeded TDO queue, so end-to-end
//! scenarios can run without hardware and tests can inspect exactly
//! what was clocked.

use crate::bits::{min_nat, take_pad};
use crate::interface::{with_tdo, JtagBit, JtagInterface};
use vstd::prelude::*;

verus! {

/// An adapter backed by plain vectors: `log` records every cycle
/// driven, `queue` holds the TDO samples still to be returned.
pub struct SimAdapter {
    pub log: Vec<JtagBit>,
    pub queue: Vec<bool>,
}

impl SimAdapter {
    /// A fresh adapter that will answer reads from `queue`.
    pub fn new(queue: Vec<bool>) -> (r: SimAdapter)
        ensures
            r.log@ == Seq::<JtagBit>::empty(),
            r.queue@ == queue@,
    {
        SimAdapter { log: Vec::new(), queue }
    }

    /// How many cycles have been driven so far.
    pub fn log_len(&self) -> (r: usize)
        ensures
            r == self.log@.len(),
    {
        self.log.len()
    }

    /// The `i`th driven cycle.
    pub fn log_at(&self, i: usize) -> (r: JtagBit)
        requires
            i < self.log@.len(),
        ensures
            r == self.log@[i as int],
    {
        self.log[i]
    }
}

impl JtagInterface for SimAdapter {
    open spec fn trace(&self) -> Seq<JtagBit> {
        self.log@
    }

    open spec fn tdo_queue(&self) -> Seq<bool> {
        self.queue@
    }

    fn raw_write(&mut self, data: &Vec<JtagBit>) {
        let n = data.len();
        let mut i: usize = 0;
        while i < n
            invariant
                i <= n,
                n == data@.len(),
                self.log@ == old(self).log@ + data@.take(i as int),
                self.queue@ == old(self).queue@,
            decreases n - i,
        {
            self.log.push(data[i]);
            proof {
                assert(data@.take(i + 1) =~= data@.take(i as int).push(data@[i as int]));
            }
            i = i + 1;
        }
        proof {
            assert(data@.take(n as int) =~= data@);
        }
    }

    fn raw_read(&mut self, data: &mut Vec<JtagBit>) {
        let n = data.len();
        let ghost q0 = self.queue@;
        let mut i: usize = 0;
        while i < n
            invariant
                i <= n,
                n == data@.len(),
                n == old(data)@.len(),
                self.log@ == old(self).log@ + old(data)@.take(i as int),
                self.queue@ == q0.skip(min_nat(i as nat, q0.len()) as int),
                forall|k: int|
                    0 <= k < i ==> data@[k] == (JtagBit {
                        tdo: take_pad(q0, n as nat)[k],
                        ..old(data)@[k]
                    }),
                forall|k: int| i <= k < n ==> data@[k] == old(data)@[k],
            decreases n - i,
        {
            let e = data[i];
            self.log.push(e);
            let b: bool;
            if self.queue.len() > 0 {
                b = self.queue.remove(0);
                proof {
                    assert(i < q0.len());
                    assert(q0.skip(i as int).remove(0) =~= q0.skip(i + 1));
                    assert(b == q0.skip(i as int)[0]);
                    assert(min_nat((i + 1) as nat, q0.len()) == (i + 1) as nat);
                }
            } else {
                b = false;
                proof {
                    assert(q0.len() <= i);
                    assert(min_nat((i + 1) as nat, q0.len()) == min_nat(i as nat, q0.len()));
                }
            }
            let e2 = JtagBit { tdo: b, ..e };
            data[i] = e2;
            proof {
                assert(old(data)@.take(i + 1) =~= old(data)@.take(i as int).push(
                    old(data)@[i as int],
                ));
            }
            i = i + 1;
        }
        proof {
            assert(old(data)@.take(n as int) =~= old(data)@);
            assert(data@ =~= with_tdo(old(data)@, take_pad(q0, n as nat)));
        }
    }
}

} // verus!
