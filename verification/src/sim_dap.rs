//! A simulated JTAG-DP device with one MEM-AP behind it: the
//! verified model that the DAP layers run against in tests. It
//! keeps the DP registers, the posted-read buffer, CSW and TAR, and
//! a sparse 32-bit memory, and can be scripted to answer particular
//! reads with particular values. Its behaviour is the spec-level
//! transition functions `sim_dp_step` and `sim_ap_step`, against
//! which the posted-read handshake is proved.

use crate::dap::{memap_block, spec_select_word, tar_u64_write_ops, DapInterface, DapOp, MemapAddress};
use vstd::prelude::*;

verus! {

/// The spec-level state of the simulated device.
#[verifier::ext_equal]
pub struct SimDapModel {
    /// Value answered for DP address 0 reads.
    pub dpidr: u32,
    /// Value of the MEM-AP identification register.
    pub idr: u32,
    pub dp_select: u32,
    pub dp_ctrlstat: u32,
    /// The posted-read buffer (RDBUFF).
    pub posted: u32,
    pub csw: u32,
    pub tar: u64,
    /// Sparse memory: later entries shadow earlier ones.
    pub mem: Seq<(u64, u32)>,
    /// Scripted read overrides, consumed in order when the address
    /// read matches the head entry.
    pub script: Seq<(u64, u32)>,
}

/// The last value written at `addr`, or 0 if none.
pub open spec fn mem_lookup(mem: Seq<(u64, u32)>, addr: u64) -> u32
    decreases mem.len(),
{
    if mem.len() == 0 {
        0
    } else if mem.last().0 == addr {
        mem.last().1
    } else {
        mem_lookup(mem.drop_last(), addr)
    }
}

/// The value of DP register `a` in state `m`.
pub open spec fn dp_reg_value(m: SimDapModel, a: u8) -> u32 {
    if a == 0 {
        m.dpidr
    } else if a == 1 {
        m.dp_ctrlstat
    } else if a == 2 {
        m.dp_select
    } else {
        m.posted
    }
}

/// What a memory-mapped read at `addr` returns and what it leaves of
/// the script.
pub open spec fn spec_scripted_read(m: SimDapModel, addr: u64) -> (u32, Seq<(u64, u32)>) {
    if m.script.len() > 0 && m.script[0].0 == addr {
        (m.script[0].1, m.script.skip(1))
    } else {
        (mem_lookup(m.mem, addr), m.script)
    }
}

/// One DPACC scan against the device: the result returned is always
/// the previously posted value; a read of address 0..2 posts that
/// register's value, a read of RDBUFF posts nothing; a CTRL/STAT
/// write latches the value with the power-up acknowledgements
/// mirroring the request bits, and a SELECT write latches the value.
pub open spec fn sim_dp_step(m: SimDapModel, data: u32, a: u8, rnw: bool) -> (
    SimDapModel,
    u8,
    u32,
) {
    let result = m.posted;
    if rnw {
        if a == 3 {
            (m, 2u8, result)
        } else {
            ((SimDapModel { posted: dp_reg_value(m, a), ..m }), 2u8, result)
        }
    } else {
        if a == 1 {
            ((SimDapModel { dp_ctrlstat: data | ((data & 0x5000_0000) << 1), ..m }), 2u8, result)
        } else if a == 2 {
            ((SimDapModel { dp_select: data, ..m }), 2u8, result)
        } else {
            (m, 2u8, result)
        }
    }
}

/// The MEM-AP register byte offset addressed by an APACC scan at
/// word index `a`, given the APBANKSEL field currently in SELECT.
pub open spec fn sim_ap_addr(m: SimDapModel, a: u8) -> u8 {
    ((((m.dp_select >> 4) & 0xf) as u8) << 4) | ((a & 3) << 2)
}

/// The absolute address a banked-data register aliases: the 16-byte
/// window at TAR[63:4], entry `reg - 0x10`.
pub open spec fn sim_bd_addr(tar: u64, reg: u8) -> u64 {
    (((tar & 0xffff_ffff_ffff_fff0) + ((reg - 0x10) as u64)) as u64)
}

/// One APACC scan against the device: the result returned is the
/// previously posted value; a read posts the addressed register or
/// memory word (honouring the script), a write latches CSW or a TAR
/// half or stores to memory through BD0..BD3 or DRW.
pub open spec fn sim_ap_step(m: SimDapModel, data: u32, a: u8, rnw: bool) -> (
    SimDapModel,
    u8,
    u32,
) {
    let reg = sim_ap_addr(m, a);
    let result = m.posted;
    if rnw {
        if reg == 0x00 {
            ((SimDapModel { posted: m.csw, ..m }), 2u8, result)
        } else if reg == 0x04 {
            ((SimDapModel { posted: (m.tar & 0xffff_ffff) as u32, ..m }), 2u8, result)
        } else if reg == 0x08 {
            ((SimDapModel { posted: (m.tar >> 32) as u32, ..m }), 2u8, result)
        } else if reg == 0x10 || reg == 0x14 || reg == 0x18 || reg == 0x1C {
            let rd = spec_scripted_read(m, sim_bd_addr(m.tar, reg));
            ((SimDapModel { posted: rd.0, script: rd.1, ..m }), 2u8, result)
        } else if reg == 0x0C {
            let rd = spec_scripted_read(m, m.tar);
            ((SimDapModel { posted: rd.0, script: rd.1, ..m }), 2u8, result)
        } else if reg == 0xFC {
            ((SimDapModel { posted: m.idr, ..m }), 2u8, result)
        } else {
            ((SimDapModel { posted: 0, ..m }), 2u8, result)
        }
    } else {
        if reg == 0x00 {
            ((SimDapModel { csw: data, ..m }), 2u8, result)
        } else if reg == 0x04 {
            ((SimDapModel { tar: (m.tar & 0xffff_ffff_0000_0000) | (data as u64), ..m }),
            2u8,
            result)
        } else if reg == 0x08 {
            ((SimDapModel { tar: (m.tar & 0xffff_ffff) | ((data as u64) << 32), ..m }),
            2u8,
            result)
        } else if reg == 0x10 || reg == 0x14 || reg == 0x18 || reg == 0x1C {
            ((SimDapModel { mem: m.mem.push((sim_bd_addr(m.tar, reg), data)), ..m }), 2u8, result)
        } else if reg == 0x0C {
            ((SimDapModel { mem: m.mem.push((m.tar, data)), ..m }), 2u8, result)
        } else {
            (m, 2u8, result)
        }
    }
}

/// Step the device model by one access.
pub open spec fn sim_step_op(m: SimDapModel, op: DapOp) -> SimDapModel {
    match op {
        DapOp::Dp { data, a, rnw } => sim_dp_step(m, data, a, rnw).0,
        DapOp::Ap { data, a, rnw } => sim_ap_step(m, data, a, rnw).0,
    }
}

/// Run a whole access sequence through the device model.
pub open spec fn sim_run(m: SimDapModel, ops: Seq<DapOp>) -> SimDapModel
    decreases ops.len(),
{
    if ops.len() == 0 {
        m
    } else {
        sim_run(sim_step_op(m, ops[0]), ops.skip(1))
    }
}

/// Running a concatenation runs the pieces in order.
pub proof fn lemma_sim_run_append(m: SimDapModel, a: Seq<DapOp>, b: Seq<DapOp>)
    ensures
        sim_run(m, a + b) == sim_run(sim_run(m, a), b),
    decreases a.len(),
{
    if a.len() == 0 {
        assert(a + b =~= b);
    } else {
        assert((a + b).skip(1) =~= a.skip(1) + b);
        lemma_sim_run_append(sim_step_op(m, a[0]), a.skip(1), b);
    }
}

/// One MEM-AP access to a TAR half, run through the device model:
/// SELECT is latched with bank 0, a write latches the addressed TAR
/// half, a read posts it; nothing else changes.
proof fn lemma_sim_run_tar_block(m: SimDapModel, route: u8, data: u32, hi: bool, read: bool)
    ensures
        sim_run(
            m,
            memap_block(
                route,
                if hi {
                    MemapAddress::TARhi
                } else {
                    MemapAddress::TARlo
                },
                data,
                read,
            ),
        ) == (SimDapModel {
            dp_select: spec_select_word(route, 0, 0),
            tar: if read {
                m.tar
            } else if hi {
                (m.tar & 0xffff_ffff) | ((data as u64) << 32)
            } else {
                (m.tar & 0xffff_ffff_0000_0000) | (data as u64)
            },
            posted: if !read {
                m.posted
            } else if hi {
                (m.tar >> 32) as u32
            } else {
                (m.tar & 0xffff_ffff) as u32
            },
            ..m
        }),
{
    let address = if hi {
        MemapAddress::TARhi
    } else {
        MemapAddress::TARlo
    };
    let word: u8 = if hi {
        2
    } else {
        1
    };
    let ops = memap_block(route, address, data, read);
    let w = spec_select_word(route, 0, 0);
    assert((0x08u8 & 0xf0) >> 4 == 0 && (0x08u8 & 0x0f) >> 2 == 2 && (0x04u8 & 0xf0) >> 4 == 0
        && (0x04u8 & 0x0f) >> 2 == 1) by (bit_vector);
    assert(ops[0] == (DapOp::Dp { data: w, a: 2, rnw: false }));
    assert(ops[1] == (DapOp::Dp { data: 0, a: 3, rnw: true }));
    assert(ops[2] == (DapOp::Ap { data, a: word, rnw: read }));
    assert(ops[3] == (DapOp::Dp { data: 0, a: 3, rnw: true }));
    let m1 = sim_step_op(m, ops[0]);
    let m2 = sim_step_op(m1, ops[1]);
    let m3 = sim_step_op(m2, ops[2]);
    let m4 = sim_step_op(m3, ops[3]);
    assert(ops.skip(1).skip(1) =~= ops.skip(2));
    assert(ops.skip(2).skip(1) =~= ops.skip(3));
    assert(ops.skip(3).skip(1) =~= ops.skip(4));
    assert(ops.skip(4).len() == 0);
    assert(ops.skip(1)[0] == ops[1] && ops.skip(2)[0] == ops[2] && ops.skip(3)[0] == ops[3]);
    assert(sim_run(m, ops) == sim_run(m1, ops.skip(1)));
    assert(sim_run(m1, ops.skip(1)) == sim_run(m2, ops.skip(2)));
    assert(sim_run(m2, ops.skip(2)) == sim_run(m3, ops.skip(3)));
    assert(sim_run(m3, ops.skip(3)) == sim_run(m4, ops.skip(4)));
    assert(sim_run(m4, ops.skip(4)) == m4);
    assert(sim_run(m, ops) == m4);
    assert(m1 == (SimDapModel { dp_select: w, ..m }));
    assert(m2 == m1);
    let r32 = route as u32;
    assert(((((((r32 & 0xff) << 24) | ((0u32 & 0xf) << 4) | (0u32 & 0xf)) >> 4) & 0xf) as u8)
        == 0) by (bit_vector);
    assert(sim_ap_addr(m2, word) == ((0u8 << 4) | ((word & 3) << 2)));
    assert((0u8 << 4) | ((2u8 & 3) << 2) == 0x08 && (0u8 << 4) | ((1u8 & 3) << 2) == 0x04)
        by (bit_vector);
}

/// A full 64-bit TAR write sequence (both halves written, then read
/// back), run through the device model, leaves TAR holding exactly
/// the address written, whatever the device held before.
pub proof fn lemma_tar_write_sets_tar(m: SimDapModel, route: u8, address: u64)
    ensures
        sim_run(m, tar_u64_write_ops(route, address)).tar == address,
{
    let hi = (address >> 32) as u32;
    let lo = (address & 0xffff_ffff) as u32;
    let b1 = memap_block(route, MemapAddress::TARhi, hi, false);
    let b2 = memap_block(route, MemapAddress::TARlo, lo, false);
    let b3 = memap_block(route, MemapAddress::TARhi, (0u64 >> 32) as u32, true);
    let b4 = memap_block(route, MemapAddress::TARlo, (0u64 & 0xffff_ffff) as u32, true);
    lemma_sim_run_append(m, b1 + b2 + b3, b4);
    lemma_sim_run_append(m, b1 + b2, b3);
    lemma_sim_run_append(m, b1, b2);
    lemma_sim_run_tar_block(m, route, hi, true, false);
    let m1 = sim_run(m, b1);
    lemma_sim_run_tar_block(m1, route, lo, false, false);
    let m2 = sim_run(m1, b2);
    lemma_sim_run_tar_block(m2, route, (0u64 >> 32) as u32, true, true);
    let m3 = sim_run(m2, b3);
    lemma_sim_run_tar_block(m3, route, (0u64 & 0xffff_ffff) as u32, false, true);
    let t = m.tar;
    assert(((((t & 0xffff_ffff) | ((((address >> 32) as u32) as u64) << 32))
        & 0xffff_ffff_0000_0000) | (((address & 0xffff_ffff) as u32) as u64)) == address)
        by (bit_vector);
}

/// Posted-read round-trip: for every DP register X, a DPACC read of
/// X followed by a DPACC read of RDBUFF returns the value X held
/// before the pair, whatever was posted beforehand.
pub proof fn lemma_posted_read_roundtrip(m: SimDapModel, x: u8)
    requires
        x < 4,
    ensures
        ({
            let (m1, _a1, _r1) = sim_dp_step(m, 0, x, true);
            let (_m2, _a2, r2) = sim_dp_step(m1, 0, 3, true);
            r2 == dp_reg_value(m, x)
        }),
{
}

/// The executable simulated device.
pub struct SimDap {
    pub dpidr: u32,
    pub idr: u32,
    pub dp_select: u32,
    pub dp_ctrlstat: u32,
    pub posted: u32,
    pub csw: u32,
    pub tar: u64,
    pub mem: Vec<(u64, u32)>,
    pub script: Vec<(u64, u32)>,
    /// Every access issued to the device, for inspection.
    pub ops: Vec<DapOp>,
    /// The (ack, result) pair each access answered, in step.
    pub resps: Vec<(u8, u32)>,
}

impl SimDap {
    /// The device's spec-level state.
    pub open spec fn model(&self) -> SimDapModel {
        SimDapModel {
            dpidr: self.dpidr,
            idr: self.idr,
            dp_select: self.dp_select,
            dp_ctrlstat: self.dp_ctrlstat,
            posted: self.posted,
            csw: self.csw,
            tar: self.tar,
            mem: self.mem@,
            script: self.script@,
        }
    }

    /// A device with everything zeroed and nothing scripted.
    pub fn new() -> (r: SimDap)
        ensures
            r.model() == (SimDapModel {
                dpidr: 0,
                idr: 0,
                dp_select: 0,
                dp_ctrlstat: 0,
                posted: 0,
                csw: 0,
                tar: 0,
                mem: Seq::<(u64, u32)>::empty(),
                script: Seq::<(u64, u32)>::empty(),
            }),
            r.ops@ == Seq::<DapOp>::empty(),
            r.resps@ == Seq::<(u8, u32)>::empty(),
    {
        let r = SimDap {
            dpidr: 0,
            idr: 0,
            dp_select: 0,
            dp_ctrlstat: 0,
            posted: 0,
            csw: 0,
            tar: 0,
            mem: Vec::new(),
            script: Vec::new(),
            ops: Vec::new(),
            resps: Vec::new(),
        };
        proof {
            assert(r.model() =~= (SimDapModel {
                dpidr: 0,
                idr: 0,
                dp_select: 0,
                dp_ctrlstat: 0,
                posted: 0,
                csw: 0,
                tar: 0,
                mem: Seq::<(u64, u32)>::empty(),
                script: Seq::<(u64, u32)>::empty(),
            }));
        }
        r
    }

    /// How many accesses the device has seen.
    pub fn ops_len(&self) -> (r: usize)
        ensures
            r == self.ops@.len(),
    {
        self.ops.len()
    }

    /// The `i`th access the device saw.
    pub fn op_at(&self, i: usize) -> (r: DapOp)
        requires
            i < self.ops@.len(),
        ensures
            r == self.ops@[i as int],
    {
        self.ops[i]
    }

    /// One DPACC scan, as `sim_dp_step` describes; the access is
    /// recorded.
    pub fn sim_dpacc(&mut self, data: u32, a: u8, rnw: bool) -> (r: (u8, u32))
        requires
            a < 4,
        ensures
            final(self).model() == sim_dp_step(old(self).model(), data, a, rnw).0,
            r.0 == sim_dp_step(old(self).model(), data, a, rnw).1,
            r.1 == sim_dp_step(old(self).model(), data, a, rnw).2,
            final(self).ops@ == old(self).ops@.push((DapOp::Dp { data, a, rnw })),
            final(self).resps@ == old(self).resps@.push(r),
    {
        let result = self.posted;
        if rnw {
            if a == 0 {
                self.posted = self.dpidr;
            } else if a == 1 {
                self.posted = self.dp_ctrlstat;
            } else if a == 2 {
                self.posted = self.dp_select;
            }
        } else {
            if a == 1 {
                self.dp_ctrlstat = data | ((data & 0x5000_0000) << 1);
            } else if a == 2 {
                self.dp_select = data;
            }
        }
        self.ops.push(DapOp::Dp { data, a, rnw });
        self.resps.push((2, result));
        proof {
            assert(final(self).model() =~= sim_dp_step(old(self).model(), data, a, rnw).0);
        }
        (2, result)
    }

    /// One APACC scan, as `sim_ap_step` describes; the access is
    /// recorded.
    pub fn sim_apacc(&mut self, data: u32, a: u8, rnw: bool) -> (r: (u8, u32))
        requires
            a < 4,
        ensures
            final(self).model() == sim_ap_step(old(self).model(), data, a, rnw).0,
            r.0 == sim_ap_step(old(self).model(), data, a, rnw).1,
            r.1 == sim_ap_step(old(self).model(), data, a, rnw).2,
            final(self).ops@ == old(self).ops@.push((DapOp::Ap { data, a, rnw })),
            final(self).resps@ == old(self).resps@.push(r),
    {
        let bank: u8 = ((self.dp_select >> 4) & 0xf) as u8;
        let reg: u8 = (bank << 4) | ((a & 3) << 2);
        proof {
            let s = self.dp_select;
            assert((((s >> 4) & 0xf) as u8) < 16) by (bit_vector);
        }
        let result = self.posted;
        if rnw {
            if reg == 0x00 {
                self.posted = self.csw;
            } else if reg == 0x04 {
                self.posted = (self.tar & 0xffff_ffff) as u32;
            } else if reg == 0x08 {
                self.posted = (self.tar >> 32) as u32;
            } else if reg == 0x10 || reg == 0x14 || reg == 0x18 || reg == 0x1C {
                let addr = self.bd_addr(reg);
                let v = self.scripted_read(addr);
                self.posted = v;
            } else if reg == 0x0C {
                let addr = self.tar;
                let v = self.scripted_read(addr);
                self.posted = v;
            } else if reg == 0xFC {
                self.posted = self.idr;
            } else {
                self.posted = 0;
            }
        } else {
            if reg == 0x00 {
                self.csw = data;
            } else if reg == 0x04 {
                self.tar = (self.tar & 0xffff_ffff_0000_0000) | (data as u64);
            } else if reg == 0x08 {
                self.tar = (self.tar & 0xffff_ffff) | ((data as u64) << 32);
            } else if reg == 0x10 || reg == 0x14 || reg == 0x18 || reg == 0x1C {
                let addr = self.bd_addr(reg);
                self.mem.push((addr, data));
            } else if reg == 0x0C {
                let addr = self.tar;
                self.mem.push((addr, data));
            }
        }
        self.ops.push(DapOp::Ap { data, a, rnw });
        self.resps.push((2, result));
        proof {
            assert(final(self).model() =~= sim_ap_step(old(self).model(), data, a, rnw).0);
        }
        (2, result)
    }

    /// The absolute address a banked-data register aliases.
    fn bd_addr(&self, reg: u8) -> (r: u64)
        requires
            reg == 0x10 || reg == 0x14 || reg == 0x18 || reg == 0x1C,
        ensures
            r == sim_bd_addr(self.tar, reg),
    {
        let base = self.tar & 0xffff_ffff_ffff_fff0;
        proof {
            let t = self.tar;
            assert((t & 0xffff_ffff_ffff_fff0u64) <= 0xffff_ffff_ffff_fff0u64) by (bit_vector);
        }
        base + ((reg - 0x10) as u64)
    }

    /// A memory-mapped read, honouring the script.
    fn scripted_read(&mut self, addr: u64) -> (r: u32)
        ensures
            r == spec_scripted_read(old(self).model(), addr).0,
            final(self).script@ == spec_scripted_read(old(self).model(), addr).1,
            final(self).mem@ == old(self).mem@,
            final(self).ops@ == old(self).ops@,
            final(self).resps@ == old(self).resps@,
            final(self).dpidr == old(self).dpidr,
            final(self).idr == old(self).idr,
            final(self).dp_select == old(self).dp_select,
            final(self).dp_ctrlstat == old(self).dp_ctrlstat,
            final(self).posted == old(self).posted,
            final(self).csw == old(self).csw,
            final(self).tar == old(self).tar,
    {
        if self.script.len() > 0 {
            let head = self.script[0];
            if head.0 == addr {
                let e = self.script.remove(0);
                proof {
                    assert(old(self).script@.remove(0) =~= old(self).script@.skip(1));
                }
                return e.1;
            }
        }
        mem_get(&self.mem, addr)
    }
}

/// The last value written at `addr` in a sparse memory, searching
/// newest entries first.
fn mem_get(mem: &Vec<(u64, u32)>, addr: u64) -> (r: u32)
    ensures
        r == mem_lookup(mem@, addr),
{
    let mut i = mem.len();
    proof {
        assert(mem@.take(mem@.len() as int) =~= mem@);
    }
    while i > 0
        invariant
            i <= mem@.len(),
            mem_lookup(mem@, addr) == mem_lookup(mem@.take(i as int), addr),
        decreases i,
    {
        i = i - 1;
        let e = mem[i];
        proof {
            assert(mem@.take(i + 1).len() == i + 1);
            assert(mem@.take(i + 1).last() == mem@[i as int]);
            assert(mem@.take(i + 1).drop_last() =~= mem@.take(i as int));
        }
        if e.0 == addr {
            return e.1;
        }
    }
    proof {
        assert(mem@.take(0).len() == 0);
    }
    0
}

impl DapInterface for SimDap {
    open spec fn dap_inv(&self) -> bool {
        true
    }

    open spec fn dap_ops(&self) -> Seq<DapOp> {
        self.ops@
    }

    open spec fn dap_resps(&self) -> Seq<(u8, u32)> {
        self.resps@
    }

    open spec fn dap_route(&self) -> u8 {
        0
    }

    fn apacc(&mut self, data: u32, a: u8, rnw: bool) -> (r: (u8, u32))
        ensures
            final(self).model() == sim_ap_step(old(self).model(), data, a, rnw).0,
            r.0 == sim_ap_step(old(self).model(), data, a, rnw).1,
            r.1 == sim_ap_step(old(self).model(), data, a, rnw).2,
    {
        self.sim_apacc(data, a, rnw)
    }

    fn dpacc(&mut self, data: u32, a: u8, rnw: bool) -> (r: (u8, u32))
        ensures
            final(self).model() == sim_dp_step(old(self).model(), data, a, rnw).0,
            r.0 == sim_dp_step(old(self).model(), data, a, rnw).1,
            r.1 == sim_dp_step(old(self).model(), data, a, rnw).2,
    {
        self.sim_dpacc(data, a, rnw)
    }
}

} // verus!
