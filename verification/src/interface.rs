//! The adapter contract. An adapter presents the seven JTAG signals
//! and performs one full TCK cycle per entry handed to it. Its
//! observable behaviour is modelled by two sequences: the trace of
//! pin levels driven so far, and the queue of TDO samples it will
//! hand back to reads.

use crate::bits::{min_nat, take_pad};
use vstd::prelude::*;

verus! {

/// One TCK cycle's worth of JTAG signal levels. TDO is the only
/// input; the rest are outputs driven by the host.
#[derive(Clone, Copy, Debug, PartialEq, Eq, Structural)]
pub struct JtagBit {
    pub tms: bool,
    pub tck: bool,
    pub tdi: bool,
    pub tdo: bool,
    pub trst: bool,
    pub srst: bool,
}

impl JtagBit {
    /// All signals low.
    pub fn empty() -> (r: JtagBit)
        ensures
            r == spec_empty_bit(),
    {
        JtagBit { tms: false, tck: false, tdi: false, tdo: false, trst: false, srst: false }
    }
}

/// All signals low.
pub open spec fn spec_empty_bit() -> JtagBit {
    JtagBit { tms: false, tck: false, tdi: false, tdo: false, trst: false, srst: false }
}

/// A cycle that drives only TMS (to `b`), as `write_tms` emits.
pub open spec fn spec_tms_entry(b: bool) -> JtagBit {
    JtagBit { tms: b, tck: false, tdi: false, tdo: false, trst: false, srst: false }
}

/// A cycle that drives TDI (to `b`) and TMS (to `tms`), as the data
/// paths emit.
pub open spec fn spec_tdi_entry(b: bool, tms: bool) -> JtagBit {
    JtagBit { tms: tms, tck: false, tdi: b, tdo: false, trst: false, srst: false }
}

/// The cycles emitted for a TMS sequence.
pub open spec fn tms_entries(tms: Seq<bool>) -> Seq<JtagBit> {
    Seq::new(tms.len(), |i: int| spec_tms_entry(tms[i]))
}

/// The cycles emitted for a TDI sequence; if `exit` is set, TMS is
/// raised on the last cycle to force an Exit1 transition.
pub open spec fn tdi_entries(tdi: Seq<bool>, exit: bool) -> Seq<JtagBit> {
    Seq::new(tdi.len(), |i: int| spec_tdi_entry(tdi[i], exit && i == tdi.len() - 1))
}

/// `entries` with each TDO flag replaced by the sampled bit.
pub open spec fn with_tdo(entries: Seq<JtagBit>, tdo: Seq<bool>) -> Seq<JtagBit> {
    Seq::new(entries.len(), |i: int| (JtagBit { tdo: tdo[i], ..entries[i] }))
}

/// What the JTAG core asks of an adapter. `trace` is every cycle
/// driven so far, in order; `tdo_queue` is the stream of TDO samples
/// that the adapter will return to reads, exhausted reads sampling
/// low. A real adapter performs USB I/O behind this contract and is
/// not verified; the simulated adapter in this crate implements it
/// and is.
pub trait JtagInterface: Sized {
    /// Every TCK cycle driven so far.
    spec fn trace(&self) -> Seq<JtagBit>;

    /// The TDO samples still pending for reads.
    spec fn tdo_queue(&self) -> Seq<bool>;

    /// Drive one TCK cycle per entry; TDO is sampled but discarded.
    fn raw_write(&mut self, data: &Vec<JtagBit>)
        ensures
            final(self).trace() == old(self).trace() + data@,
            final(self).tdo_queue() == old(self).tdo_queue(),
    ;

    /// Drive one TCK cycle per entry and overwrite each entry's TDO
    /// flag with the level sampled on the rising edge.
    fn raw_read(&mut self, data: &mut Vec<JtagBit>)
        ensures
            final(data)@ == with_tdo(
                old(data)@,
                take_pad(old(self).tdo_queue(), old(data)@.len()),
            ),
            final(self).trace() == old(self).trace() + old(data)@,
            final(self).tdo_queue() == old(self).tdo_queue().skip(
                min_nat(old(data)@.len(), old(self).tdo_queue().len()) as int,
            ),
    ;

    /// One cycle per TMS bit, TDI held low.
    fn write_tms(&mut self, tms: &Vec<bool>)
        ensures
            final(self).trace() == old(self).trace() + tms_entries(tms@),
            final(self).tdo_queue() == old(self).tdo_queue(),
    {
        let n = tms.len();
        let mut data: Vec<JtagBit> = Vec::new();
        let mut i: usize = 0;
        while i < n
            invariant
                i <= n,
                n == tms@.len(),
                data@ == tms_entries(tms@).take(i as int),
            decreases n - i,
        {
            let b = tms[i];
            data.push(
                JtagBit { tms: b, tck: false, tdi: false, tdo: false, trst: false, srst: false },
            );
            proof {
                assert(tms_entries(tms@).take(i + 1) =~= tms_entries(tms@).take(i as int).push(
                    spec_tms_entry(tms@[i as int]),
                ));
            }
            i = i + 1;
        }
        proof {
            assert(tms_entries(tms@).take(n as int) =~= tms_entries(tms@));
        }
        self.raw_write(&data);
    }

    /// One cycle per TDI bit; with `exit`, TMS is raised on the last
    /// cycle.
    fn write_data(&mut self, tdi: &Vec<bool>, exit: bool)
        requires
            exit ==> tdi@.len() >= 1,
        ensures
            final(self).trace() == old(self).trace() + tdi_entries(tdi@, exit),
            final(self).tdo_queue() == old(self).tdo_queue(),
    {
        let n = tdi.len();
        let mut data: Vec<JtagBit> = Vec::new();
        let mut i: usize = 0;
        while i < n
            invariant
                i <= n,
                n == tdi@.len(),
                data@ == tdi_entries(tdi@, exit).take(i as int),
            decreases n - i,
        {
            let b = tdi[i];
            let is_last = exit && i == n - 1;
            data.push(
                JtagBit { tms: is_last, tck: false, tdi: b, tdo: false, trst: false, srst: false },
            );
            proof {
                assert(tdi_entries(tdi@, exit).take(i + 1) =~= tdi_entries(tdi@, exit).take(
                    i as int,
                ).push(spec_tdi_entry(tdi@[i as int], exit && i == n - 1)));
            }
            i = i + 1;
        }
        proof {
            assert(tdi_entries(tdi@, exit).take(n as int) =~= tdi_entries(tdi@, exit));
        }
        self.raw_write(&data);
    }

    /// Full-duplex: drive the buffer's bits over TDI and replace them
    /// with the bits sampled on TDO.
    fn read_data(&mut self, tditdo: &mut Vec<bool>, exit: bool)
        requires
            exit ==> old(tditdo)@.len() >= 1,
        ensures
            final(tditdo)@ == take_pad(old(self).tdo_queue(), old(tditdo)@.len()),
            final(self).trace() == old(self).trace() + tdi_entries(old(tditdo)@, exit),
            final(self).tdo_queue() == old(self).tdo_queue().skip(
                min_nat(old(tditdo)@.len(), old(self).tdo_queue().len()) as int,
            ),
    {
        let n = tditdo.len();
        let ghost q0 = self.tdo_queue();
        let mut data: Vec<JtagBit> = Vec::new();
        let mut i: usize = 0;
        while i < n
            invariant
                i <= n,
                n == tditdo@.len(),
                tditdo@ == old(tditdo)@,
                data@ == tdi_entries(old(tditdo)@, exit).take(i as int),
            decreases n - i,
        {
            let b = tditdo[i];
            let is_last = exit && i == n - 1;
            data.push(
                JtagBit { tms: is_last, tck: false, tdi: b, tdo: false, trst: false, srst: false },
            );
            proof {
                assert(tdi_entries(tditdo@, exit).take(i + 1) =~= tdi_entries(
                    tditdo@,
                    exit,
                ).take(i as int).push(spec_tdi_entry(tditdo@[i as int], exit && i == n - 1)));
            }
            i = i + 1;
        }
        proof {
            assert(tdi_entries(old(tditdo)@, exit).take(n as int) =~= tdi_entries(
                old(tditdo)@,
                exit,
            ));
        }
        self.raw_read(&mut data);
        let mut j: usize = 0;
        while j < n
            invariant
                j <= n,
                n == tditdo@.len(),
                n == data@.len(),
                forall|k: int|
                    0 <= k < n ==> data@[k] == (JtagBit {
                        tdo: take_pad(q0, n as nat)[k],
                        ..tdi_entries(old(tditdo)@, exit)[k]
                    }),
                forall|k: int| 0 <= k < j ==> tditdo@[k] == take_pad(q0, n as nat)[k],
                forall|k: int| j <= k < n ==> tditdo@[k] == old(tditdo)@[k],
            decreases n - j,
        {
            let v = data[j].tdo;
            tditdo[j] = v;
            j = j + 1;
        }
        proof {
            assert(tditdo@ =~= take_pad(q0, n as nat));
        }
    }
}

} // verus!
