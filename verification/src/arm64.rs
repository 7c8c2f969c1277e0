//! AArch64 external-debug register access over a MEM-AP: 32-bit and
//! 64-bit register reads and writes through the banked-data window
//! (one TAR setup per 16-byte-aligned window, BD0..BD3 for the four
//! words inside it), the EDSCR/EDRCR/EDPRSR bitfield views, and the
//! Cross Trigger Interface driver used to halt a core.

use crate::dap::{
    lemma_resps_chain, memap_block, resps_extended, tar_u64_write_ops, DapOp, DebugPort,
    MemapAddress, MemoryAccessPort,
};
use vstd::prelude::*;

verus! {

/// Offsets of the ARMv8-A external debug registers within a core's
/// 4-KiB debug component.
#[derive(Clone, Copy, Debug, PartialEq, Eq, Structural)]
#[allow(non_camel_case_types)]
pub enum Armv8DebugRegisterOffset {
    EDESR,
    EDECR,
    EDWARlo,
    EDWARhi,
    DBGDTRRX_EL0,
    EDITR,
    EDSCR,
    DBGDTRTX_EL0,
    EDRCR,
    EDACR,
    EDECCR,
    EDPCSRlo,
    EDCIDSR,
    EDVIDSR,
    EDPCSRhi,
    OSLAR_EL1,
    EDPRCR,
    EDPRSR,
    DBGBVR_BASE_EL1,
    DBGBCR_BASE_EL1,
    DBGWVR_BASE_EL1,
    DBGWCR_BASE_EL1,
    MIDR_EL1,
    EDPFR,
    EDDFR,
    EDPIDR0,
    EDPIDR1,
    EDPIDR2,
    EDPIDR4,
    EDDEVTYPE,
}

impl Armv8DebugRegisterOffset {
    /// The register's byte offset in the debug component.
    pub fn to_u64(self) -> (r: u64)
        ensures
            r == spec_armv8_offset(self),
    {
        match self {
            Armv8DebugRegisterOffset::EDESR => 0x020,
            Armv8DebugRegisterOffset::EDECR => 0x024,
            Armv8DebugRegisterOffset::EDWARlo => 0x030,
            Armv8DebugRegisterOffset::EDWARhi => 0x034,
            Armv8DebugRegisterOffset::DBGDTRRX_EL0 => 0x080,
            Armv8DebugRegisterOffset::EDITR => 0x084,
            Armv8DebugRegisterOffset::EDSCR => 0x088,
            Armv8DebugRegisterOffset::DBGDTRTX_EL0 => 0x08C,
            Armv8DebugRegisterOffset::EDRCR => 0x090,
            Armv8DebugRegisterOffset::EDACR => 0x094,
            Armv8DebugRegisterOffset::EDECCR => 0x098,
            Armv8DebugRegisterOffset::EDPCSRlo => 0x0A0,
            Armv8DebugRegisterOffset::EDCIDSR => 0x0A4,
            Armv8DebugRegisterOffset::EDVIDSR => 0x0A8,
            Armv8DebugRegisterOffset::EDPCSRhi => 0x0AC,
            Armv8DebugRegisterOffset::OSLAR_EL1 => 0x0300,
            Armv8DebugRegisterOffset::EDPRCR => 0x0310,
            Armv8DebugRegisterOffset::EDPRSR => 0x0314,
            Armv8DebugRegisterOffset::DBGBVR_BASE_EL1 => 0x0400,
            Armv8DebugRegisterOffset::DBGBCR_BASE_EL1 => 0x0408,
            Armv8DebugRegisterOffset::DBGWVR_BASE_EL1 => 0x800,
            Armv8DebugRegisterOffset::DBGWCR_BASE_EL1 => 0x808,
            Armv8DebugRegisterOffset::MIDR_EL1 => 0xD00,
            Armv8DebugRegisterOffset::EDPFR => 0xD20,
            Armv8DebugRegisterOffset::EDDFR => 0xD28,
            Armv8DebugRegisterOffset::EDPIDR0 => 0xFE0,
            Armv8DebugRegisterOffset::EDPIDR1 => 0xFE4,
            Armv8DebugRegisterOffset::EDPIDR2 => 0xFE8,
            Armv8DebugRegisterOffset::EDPIDR4 => 0xFEC,
            Armv8DebugRegisterOffset::EDDEVTYPE => 0xFCC,
        }
    }
}

/// The byte offset of each debug register.
pub open spec fn spec_armv8_offset(a: Armv8DebugRegisterOffset) -> u64 {
    match a {
        Armv8DebugRegisterOffset::EDESR => 0x020,
        Armv8DebugRegisterOffset::EDECR => 0x024,
        Armv8DebugRegisterOffset::EDWARlo => 0x030,
        Armv8DebugRegisterOffset::EDWARhi => 0x034,
        Armv8DebugRegisterOffset::DBGDTRRX_EL0 => 0x080,
        Armv8DebugRegisterOffset::EDITR => 0x084,
        Armv8DebugRegisterOffset::EDSCR => 0x088,
        Armv8DebugRegisterOffset::DBGDTRTX_EL0 => 0x08C,
        Armv8DebugRegisterOffset::EDRCR => 0x090,
        Armv8DebugRegisterOffset::EDACR => 0x094,
        Armv8DebugRegisterOffset::EDECCR => 0x098,
        Armv8DebugRegisterOffset::EDPCSRlo => 0x0A0,
        Armv8DebugRegisterOffset::EDCIDSR => 0x0A4,
        Armv8DebugRegisterOffset::EDVIDSR => 0x0A8,
        Armv8DebugRegisterOffset::EDPCSRhi => 0x0AC,
        Armv8DebugRegisterOffset::OSLAR_EL1 => 0x0300,
        Armv8DebugRegisterOffset::EDPRCR => 0x0310,
        Armv8DebugRegisterOffset::EDPRSR => 0x0314,
        Armv8DebugRegisterOffset::DBGBVR_BASE_EL1 => 0x0400,
        Armv8DebugRegisterOffset::DBGBCR_BASE_EL1 => 0x0408,
        Armv8DebugRegisterOffset::DBGWVR_BASE_EL1 => 0x800,
        Armv8DebugRegisterOffset::DBGWCR_BASE_EL1 => 0x808,
        Armv8DebugRegisterOffset::MIDR_EL1 => 0xD00,
        Armv8DebugRegisterOffset::EDPFR => 0xD20,
        Armv8DebugRegisterOffset::EDDFR => 0xD28,
        Armv8DebugRegisterOffset::EDPIDR0 => 0xFE0,
        Armv8DebugRegisterOffset::EDPIDR1 => 0xFE4,
        Armv8DebugRegisterOffset::EDPIDR2 => 0xFE8,
        Armv8DebugRegisterOffset::EDPIDR4 => 0xFEC,
        Armv8DebugRegisterOffset::EDDEVTYPE => 0xFCC,
    }
}

/// Offsets of the CTI registers within a CTI component.
#[derive(Clone, Copy, Debug, PartialEq, Eq, Structural)]
#[allow(non_camel_case_types)]
enum CtiOffset {
    CTICONTROL,
    CTIINTACK,
    CTIAPPSET,
    CTIAPPCLEAR,
    CTIAPPPULSE,
    CTIINENn,
    CTIOUTENn,
    CTITRIGINSTATUS,
    CTITRIGOUTSTATUS,
    CTICHINSTATUS,
    CTICHOUTSTATUS,
    CTIGATE,
    CTIDEVID2,
    CTIDEVID1,
    CTIDEVID,
}

impl CtiOffset {
    /// The register's byte offset in the CTI component.
    fn to_u64(self) -> (r: u64)
        ensures
            r == spec_cti_offset(self),
    {
        match self {
            CtiOffset::CTICONTROL => 0x000,
            CtiOffset::CTIINTACK => 0x010,
            CtiOffset::CTIAPPSET => 0x014,
            CtiOffset::CTIAPPCLEAR => 0x018,
            CtiOffset::CTIAPPPULSE => 0x01C,
            CtiOffset::CTIINENn => 0x020,
            CtiOffset::CTIOUTENn => 0x0A0,
            CtiOffset::CTITRIGINSTATUS => 0x130,
            CtiOffset::CTITRIGOUTSTATUS => 0x134,
            CtiOffset::CTICHINSTATUS => 0x138,
            CtiOffset::CTICHOUTSTATUS => 0x13C,
            CtiOffset::CTIGATE => 0x140,
            CtiOffset::CTIDEVID2 => 0xFC0,
            CtiOffset::CTIDEVID1 => 0xFC4,
            CtiOffset::CTIDEVID => 0xFC8,
        }
    }
}

/// The byte offset of each CTI register.
spec fn spec_cti_offset(a: CtiOffset) -> u64 {
    match a {
        CtiOffset::CTICONTROL => 0x000,
        CtiOffset::CTIINTACK => 0x010,
        CtiOffset::CTIAPPSET => 0x014,
        CtiOffset::CTIAPPCLEAR => 0x018,
        CtiOffset::CTIAPPPULSE => 0x01C,
        CtiOffset::CTIINENn => 0x020,
        CtiOffset::CTIOUTENn => 0x0A0,
        CtiOffset::CTITRIGINSTATUS => 0x130,
        CtiOffset::CTITRIGOUTSTATUS => 0x134,
        CtiOffset::CTICHINSTATUS => 0x138,
        CtiOffset::CTICHOUTSTATUS => 0x13C,
        CtiOffset::CTIGATE => 0x140,
        CtiOffset::CTIDEVID2 => 0xFC0,
        CtiOffset::CTIDEVID1 => 0xFC4,
        CtiOffset::CTIDEVID => 0xFC8,
    }
}

/// The EDSCR (external debug status and control) bitfield view.
#[derive(Clone, Copy, Debug, PartialEq, Eq, Structural)]
pub struct EDSCR(pub u32);

#[allow(non_snake_case)]
impl EDSCR {
    /// TX buffer full, bit 29.
    pub fn TXfull(&self) -> (r: u32)
        ensures
            r == (self.0 >> 29) & 1,
    {
        (self.0 >> 29) & 1
    }

    /// ITR empty, bit 24.
    pub fn ITE(&self) -> (r: u32)
        ensures
            r == (self.0 >> 24) & 1,
    {
        (self.0 >> 24) & 1
    }

    /// Halting debug enable, bit 14.
    pub fn HDE(&self) -> (r: u32)
        ensures
            r == (self.0 >> 14) & 1,
    {
        (self.0 >> 14) & 1
    }

    pub fn set_hde(&mut self, v: u32)
        ensures
            final(self).0 == (old(self).0 & !(1u32 << 14)) | ((v & 1) << 14),
    {
        self.0 = (self.0 & !(1u32 << 14)) | ((v & 1) << 14);
    }

    /// Register width of the exception levels, bits 13:10.
    pub fn RW(&self) -> (r: u32)
        ensures
            r == (self.0 >> 10) & 0xf,
    {
        (self.0 >> 10) & 0xf
    }

    /// Debug status, bits 5:0 (0x02 non-debug, 0x03 halted by
    /// external debug request).
    pub fn STATUS(&self) -> (r: u32)
        ensures
            r == self.0 & 0x3f,
    {
        self.0 & 0x3f
    }

    pub fn TFO(&self) -> (r: u32)
        ensures
            r == (self.0 >> 31) & 0x1,
    {
        (self.0 >> 31) & 0x1
    }

    pub fn RXfull(&self) -> (r: u32)
        ensures
            r == (self.0 >> 30) & 0x1,
    {
        (self.0 >> 30) & 0x1
    }

    pub fn ITO(&self) -> (r: u32)
        ensures
            r == (self.0 >> 28) & 0x1,
    {
        (self.0 >> 28) & 0x1
    }

    pub fn RXO(&self) -> (r: u32)
        ensures
            r == (self.0 >> 27) & 0x1,
    {
        (self.0 >> 27) & 0x1
    }

    pub fn TXU(&self) -> (r: u32)
        ensures
            r == (self.0 >> 26) & 0x1,
    {
        (self.0 >> 26) & 0x1
    }

    pub fn PipeAdv(&self) -> (r: u32)
        ensures
            r == (self.0 >> 25) & 0x1,
    {
        (self.0 >> 25) & 0x1
    }

    pub fn INTdis(&self) -> (r: u32)
        ensures
            r == (self.0 >> 22) & 0x3,
    {
        (self.0 >> 22) & 0x3
    }

    pub fn TDA(&self) -> (r: u32)
        ensures
            r == (self.0 >> 21) & 0x1,
    {
        (self.0 >> 21) & 0x1
    }

    pub fn MA(&self) -> (r: u32)
        ensures
            r == (self.0 >> 20) & 0x1,
    {
        (self.0 >> 20) & 0x1
    }

    pub fn SC2(&self) -> (r: u32)
        ensures
            r == (self.0 >> 19) & 0x1,
    {
        (self.0 >> 19) & 0x1
    }

    pub fn NS(&self) -> (r: u32)
        ensures
            r == (self.0 >> 18) & 0x1,
    {
        (self.0 >> 18) & 0x1
    }

    pub fn SDD(&self) -> (r: u32)
        ensures
            r == (self.0 >> 16) & 0x1,
    {
        (self.0 >> 16) & 0x1
    }

    pub fn EL(&self) -> (r: u32)
        ensures
            r == (self.0 >> 8) & 0x3,
    {
        (self.0 >> 8) & 0x3
    }

    pub fn A(&self) -> (r: u32)
        ensures
            r == (self.0 >> 7) & 0x1,
    {
        (self.0 >> 7) & 0x1
    }

    pub fn ERR(&self) -> (r: u32)
        ensures
            r == (self.0 >> 6) & 0x1,
    {
        (self.0 >> 6) & 0x1
    }
}

/// The EDRCR (external debug reserve control) bitfield view.
#[derive(Clone, Copy, Debug, PartialEq, Eq, Structural)]
pub struct EDRCR(pub u32);

#[allow(non_snake_case)]
impl EDRCR {
    /// Clear sticky pipeline advance, bit 4.
    pub fn CBRRQ(&self) -> (r: u32)
        ensures
            r == (self.0 >> 4) & 1,
    {
        (self.0 >> 4) & 1
    }

    pub fn set_CBRRQ(&mut self, v: u32)
        ensures
            final(self).0 == (old(self).0 & !(1u32 << 4)) | ((v & 1) << 4),
    {
        self.0 = (self.0 & !(1u32 << 4)) | ((v & 1) << 4);
    }

    /// Clear sticky error, bit 2.
    pub fn CSE(&self) -> (r: u32)
        ensures
            r == (self.0 >> 2) & 1,
    {
        (self.0 >> 2) & 1
    }

    pub fn set_CSE(&mut self, v: u32)
        ensures
            final(self).0 == (old(self).0 & !(1u32 << 2)) | ((v & 1) << 2),
    {
        self.0 = (self.0 & !(1u32 << 2)) | ((v & 1) << 2);
    }
}

/// The EDPRSR (external debug processor status) bitfield view.
#[derive(Clone, Copy, Debug, PartialEq, Eq, Structural)]
pub struct EDPRSR(pub u32);

#[allow(non_snake_case)]
impl EDPRSR {
    /// OS lock status, bit 5.
    pub fn OSLK(&self) -> (r: u32)
        ensures
            r == (self.0 >> 5) & 1,
    {
        (self.0 >> 5) & 1
    }

    /// Core halted, bit 4.
    pub fn HALTED(&self) -> (r: u32)
        ensures
            r == (self.0 >> 4) & 1,
    {
        (self.0 >> 4) & 1
    }
}

/// The banked-data register that aliases word `i` (0..3) of the
/// current 16-byte window.
pub open spec fn bd_reg_of_index(i: int) -> MemapAddress {
    if i == 0 {
        MemapAddress::BD0
    } else if i == 1 {
        MemapAddress::BD1
    } else if i == 2 {
        MemapAddress::BD2
    } else {
        MemapAddress::BD3
    }
}

/// The accesses one banked 32-bit register access issues: TAR is
/// written (and read back) with the 16-byte-aligned window base,
/// then the word is accessed through the banked-data register its
/// offset selects.
pub open spec fn register_u32_ops(
    route: u8,
    baseaddr: u64,
    offset: u64,
    data: u32,
    read: bool,
) -> Seq<DapOp> {
    tar_u64_write_ops(route, ((baseaddr + (offset & 0xffff_ffff_ffff_fff0)) as u64))
        + memap_block(route, bd_reg_of_index(((offset % 0x10) / 4) as int), data, read)
}

/// A debug component's registers fit in 4 KiB and the component must
/// not wrap the address space.
pub open spec fn component_fits(baseaddr: u64, offset: u64) -> bool {
    offset < 0x1000 && baseaddr + 0x1000 <= u64::MAX
}

/// One banked 32-bit register access: decompose `offset` into its
/// 16-byte window base and word index, point TAR at the window, and
/// access the word through BD0..BD3.
pub fn register_u32<D: DebugPort + MemoryAccessPort>(
    dap: &mut D,
    baseaddr: u64,
    offset: u64,
    data: u32,
    read: bool,
) -> (r: u32)
    requires
        old(dap).dap_inv(),
        component_fits(baseaddr, offset),
    ensures
        final(dap).dap_inv(),
        final(dap).dap_route() == old(dap).dap_route(),
        final(dap).dap_ops() == old(dap).dap_ops() + register_u32_ops(
            old(dap).dap_route(),
            baseaddr,
            offset,
            data,
            read,
        ),
        resps_extended(old(dap).dap_resps(), final(dap).dap_resps(), 20),
        r == final(dap).dap_resps().last().1,
{
    let bd_base = offset & 0xffff_ffff_ffff_fff0;
    let bd_index = (offset % 0x10) / 4;
    proof {
        assert((offset & 0xffff_ffff_ffff_fff0u64) <= offset) by (bit_vector);
        assert(bd_index < 4);
    }
    let ghost r0 = dap.dap_resps();
    dap.memap_tar_u64_write(baseaddr + bd_base);
    let ghost r1 = dap.dap_resps();
    let result: u32;
    if bd_index == 0 {
        let (_ack, tmp) = dap.memap_bd0(data, read);
        result = tmp;
    } else if bd_index == 1 {
        let (_ack, tmp) = dap.memap_bd1(data, read);
        result = tmp;
    } else if bd_index == 2 {
        let (_ack, tmp) = dap.memap_bd2(data, read);
        result = tmp;
    } else {
        let (_ack, tmp) = dap.memap_bd3(data, read);
        result = tmp;
    }
    proof {
        lemma_resps_chain(r0, r1, final(dap).dap_resps(), 16, 4);
    }
    result
}

/// Banked 32-bit register read.
pub fn register_u32_read<D: DebugPort + MemoryAccessPort>(
    dap: &mut D,
    baseaddr: u64,
    offset: u64,
) -> (r: u32)
    requires
        old(dap).dap_inv(),
        component_fits(baseaddr, offset),
    ensures
        final(dap).dap_inv(),
        final(dap).dap_route() == old(dap).dap_route(),
        final(dap).dap_ops() == old(dap).dap_ops() + register_u32_ops(
            old(dap).dap_route(),
            baseaddr,
            offset,
            0,
            true,
        ),
        resps_extended(old(dap).dap_resps(), final(dap).dap_resps(), 20),
        r == final(dap).dap_resps().last().1,
{
    register_u32(dap, baseaddr, offset, 0, true)
}

/// Banked 32-bit register write.
pub fn register_u32_write<D: DebugPort + MemoryAccessPort>(
    dap: &mut D,
    baseaddr: u64,
    offset: u64,
    data: u32,
)
    requires
        old(dap).dap_inv(),
        component_fits(baseaddr, offset),
    ensures
        final(dap).dap_inv(),
        final(dap).dap_route() == old(dap).dap_route(),
        final(dap).dap_ops() == old(dap).dap_ops() + register_u32_ops(
            old(dap).dap_route(),
            baseaddr,
            offset,
            data,
            false,
        ),
        resps_extended(old(dap).dap_resps(), final(dap).dap_resps(), 20),
{
    register_u32(dap, baseaddr, offset, data, false);
}

/// The accesses one banked 64-bit register access issues: the low
/// word in its window, then the high word, with a fresh TAR write
/// when the pair crosses into the next 16-byte window.
pub open spec fn register_u64_ops(
    route: u8,
    baseaddr: u64,
    offset: u64,
    data: u64,
    read: bool,
) -> Seq<DapOp> {
    let bd_base = offset & 0xffff_ffff_ffff_fff0;
    let bd_index = (offset % 0x10) / 4;
    let lo = (data & 0xffff_ffff) as u32;
    let hi = (data >> 32) as u32;
    tar_u64_write_ops(route, ((baseaddr + bd_base) as u64)) + memap_block(
        route,
        bd_reg_of_index(bd_index as int),
        lo,
        read,
    ) + (if bd_index == 3 {
        tar_u64_write_ops(route, ((baseaddr + bd_base + 0x10) as u64)) + memap_block(
            route,
            MemapAddress::BD0,
            hi,
            read,
        )
    } else {
        memap_block(route, bd_reg_of_index(bd_index as int + 1), hi, read)
    })
}

/// One banked 64-bit register access as two consecutive 32-bit word
/// accesses, low half first; when the low word sits in the last
/// banked slot the window is advanced with a new TAR write before
/// the high word is accessed.
pub fn register_u64<D: DebugPort + MemoryAccessPort>(
    dap: &mut D,
    baseaddr: u64,
    offset: u64,
    data: u64,
    read: bool,
) -> (r: u64)
    requires
        old(dap).dap_inv(),
        component_fits(baseaddr, offset),
        offset + 4 < 0x1000,
    ensures
        final(dap).dap_inv(),
        final(dap).dap_route() == old(dap).dap_route(),
        final(dap).dap_ops() == old(dap).dap_ops() + register_u64_ops(
            old(dap).dap_route(),
            baseaddr,
            offset,
            data,
            read,
        ),
        resps_extended(
            old(dap).dap_resps(),
            final(dap).dap_resps(),
            (if (offset % 0x10) / 4 == 3 {
                40nat
            } else {
                24nat
            }),
        ),
        r == (((final(dap).dap_resps().last().1 as u64) << 32) | (final(dap).dap_resps()[
            old(dap).dap_resps().len() as int + 19
        ].1 as u64)),
{
    let bd_base = offset & 0xffff_ffff_ffff_fff0;
    let bd_index = (offset % 0x10) / 4;
    let data_low = (data & 0xffff_ffff) as u32;
    let data_high = (data >> 32) as u32;
    proof {
        assert((offset & 0xffff_ffff_ffff_fff0u64) <= offset) by (bit_vector);
        assert(bd_index < 4);
    }
    let ghost r0 = dap.dap_resps();
    dap.memap_tar_u64_write(baseaddr + bd_base);
    let ghost r1 = dap.dap_resps();
    let result_low: u32;
    if bd_index == 0 {
        let (_ack, tmp) = dap.memap_bd0(data_low, read);
        result_low = tmp;
    } else if bd_index == 1 {
        let (_ack, tmp) = dap.memap_bd1(data_low, read);
        result_low = tmp;
    } else if bd_index == 2 {
        let (_ack, tmp) = dap.memap_bd2(data_low, read);
        result_low = tmp;
    } else {
        let (_ack, tmp) = dap.memap_bd3(data_low, read);
        result_low = tmp;
    }
    let ghost r2 = dap.dap_resps();
    proof {
        lemma_resps_chain(r0, r1, r2, 16, 4);
    }
    let result_high: u32;
    if bd_index == 3 {
        dap.memap_tar_u64_write(baseaddr + bd_base + 0x10);
        let ghost r3 = dap.dap_resps();
        proof {
            lemma_resps_chain(r0, r2, r3, 20, 16);
        }
        let (_ack, tmp) = dap.memap_bd0(data_high, read);
        proof {
            lemma_resps_chain(r0, r3, final(dap).dap_resps(), 36, 4);
            assert(final(dap).dap_resps()[r0.len() as int + 19] == r2.last());
        }
        result_high = tmp;
    } else if bd_index == 0 {
        let (_ack, tmp) = dap.memap_bd1(data_high, read);
        result_high = tmp;
    } else if bd_index == 1 {
        let (_ack, tmp) = dap.memap_bd2(data_high, read);
        result_high = tmp;
    } else {
        let (_ack, tmp) = dap.memap_bd3(data_high, read);
        result_high = tmp;
    }
    proof {
        if bd_index != 3 {
            lemma_resps_chain(r0, r2, final(dap).dap_resps(), 20, 4);
            assert(final(dap).dap_resps()[r0.len() as int + 19] == r2.last());
        }
    }
    ((result_high as u64) << 32) | (result_low as u64)
}

/// Banked 64-bit register read.
pub fn register_u64_read<D: DebugPort + MemoryAccessPort>(
    dap: &mut D,
    baseaddr: u64,
    offset: u64,
) -> (r: u64)
    requires
        old(dap).dap_inv(),
        component_fits(baseaddr, offset),
        offset + 4 < 0x1000,
    ensures
        final(dap).dap_inv(),
        final(dap).dap_route() == old(dap).dap_route(),
        final(dap).dap_ops() == old(dap).dap_ops() + register_u64_ops(
            old(dap).dap_route(),
            baseaddr,
            offset,
            0,
            true,
        ),
        resps_extended(
            old(dap).dap_resps(),
            final(dap).dap_resps(),
            (if (offset % 0x10) / 4 == 3 {
                40nat
            } else {
                24nat
            }),
        ),
        r == (((final(dap).dap_resps().last().1 as u64) << 32) | (final(dap).dap_resps()[
            old(dap).dap_resps().len() as int + 19
        ].1 as u64)),
{
    register_u64(dap, baseaddr, offset, 0, true)
}

/// Banked 64-bit register write.
pub fn register_u64_write<D: DebugPort + MemoryAccessPort>(
    dap: &mut D,
    baseaddr: u64,
    offset: u64,
    data: u64,
)
    requires
        old(dap).dap_inv(),
        component_fits(baseaddr, offset),
        offset + 4 < 0x1000,
    ensures
        final(dap).dap_inv(),
        final(dap).dap_route() == old(dap).dap_route(),
        final(dap).dap_ops() == old(dap).dap_ops() + register_u64_ops(
            old(dap).dap_route(),
            baseaddr,
            offset,
            data,
            false,
        ),
        resps_extended(
            old(dap).dap_resps(),
            final(dap).dap_resps(),
            (if (offset % 0x10) / 4 == 3 {
                40nat
            } else {
                24nat
            }),
        ),
{
    register_u64(dap, baseaddr, offset, data, false);
}

/// A Cross Trigger Interface component at a fixed base address; its
/// registers are reached through the shared DAP handed to each call.
pub struct Cti {
    pub baseaddr: u64,
}

impl Cti {
    /// Enable the CTI: write 1 to CTICONTROL.
    pub fn enable<D: DebugPort + MemoryAccessPort>(&self, dap: &mut D)
        requires
            old(dap).dap_inv(),
            component_fits(self.baseaddr, 0x140),
        ensures
            final(dap).dap_inv(),
            final(dap).dap_route() == old(dap).dap_route(),
            final(dap).dap_ops() == old(dap).dap_ops() + register_u32_ops(
                old(dap).dap_route(),
                self.baseaddr,
                0x000,
                1,
                false,
            ),
            resps_extended(old(dap).dap_resps(), final(dap).dap_resps(), 20),
    {
        register_u32_write(dap, self.baseaddr, CtiOffset::CTICONTROL.to_u64(), 1);
    }

    /// Disable the CTI: write 0 to CTICONTROL.
    pub fn disable<D: DebugPort + MemoryAccessPort>(&self, dap: &mut D)
        requires
            old(dap).dap_inv(),
            component_fits(self.baseaddr, 0x140),
        ensures
            final(dap).dap_inv(),
            final(dap).dap_route() == old(dap).dap_route(),
            final(dap).dap_ops() == old(dap).dap_ops() + register_u32_ops(
                old(dap).dap_route(),
                self.baseaddr,
                0x000,
                0,
                false,
            ),
            resps_extended(old(dap).dap_resps(), final(dap).dap_resps(), 20),
    {
        register_u32_write(dap, self.baseaddr, CtiOffset::CTICONTROL.to_u64(), 0);
    }

    /// Open a channel's gate: read-modify-write CTIGATE setting bit
    /// `channel`.
    pub fn channel_gate_enable<D: DebugPort + MemoryAccessPort>(&self, dap: &mut D, channel: u8)
        requires
            old(dap).dap_inv(),
            channel < 32,
            component_fits(self.baseaddr, 0x140),
        ensures
            final(dap).dap_inv(),
            final(dap).dap_route() == old(dap).dap_route(),
            resps_extended(old(dap).dap_resps(), final(dap).dap_resps(), 40),
            final(dap).dap_ops() == old(dap).dap_ops() + register_u32_ops(
                old(dap).dap_route(),
                self.baseaddr,
                0x140,
                0,
                true,
            ) + register_u32_ops(
                old(dap).dap_route(),
                self.baseaddr,
                0x140,
                (final(dap).dap_resps()[old(dap).dap_resps().len() as int + 19].1) | (1u32
                    << channel),
                false,
            ),
    {
        let ghost r0 = dap.dap_resps();
        let status = register_u32_read(dap, self.baseaddr, CtiOffset::CTIGATE.to_u64());
        let ghost r1 = dap.dap_resps();
        register_u32_write(dap, self.baseaddr, CtiOffset::CTIGATE.to_u64(), status | (1u32
            << channel));
        proof {
            lemma_resps_chain(r0, r1, final(dap).dap_resps(), 20, 20);
            assert(final(dap).dap_resps()[r0.len() as int + 19] == r1.last());
        }
    }

    /// Close a channel's gate: read-modify-write CTIGATE clearing
    /// bit `channel`.
    pub fn channel_gate_disable<D: DebugPort + MemoryAccessPort>(&self, dap: &mut D, channel: u8)
        requires
            old(dap).dap_inv(),
            channel < 32,
            component_fits(self.baseaddr, 0x140),
        ensures
            final(dap).dap_inv(),
            final(dap).dap_route() == old(dap).dap_route(),
            resps_extended(old(dap).dap_resps(), final(dap).dap_resps(), 40),
            final(dap).dap_ops() == old(dap).dap_ops() + register_u32_ops(
                old(dap).dap_route(),
                self.baseaddr,
                0x140,
                0,
                true,
            ) + register_u32_ops(
                old(dap).dap_route(),
                self.baseaddr,
                0x140,
                (final(dap).dap_resps()[old(dap).dap_resps().len() as int + 19].1) & !(1u32
                    << channel),
                false,
            ),
    {
        let ghost r0 = dap.dap_resps();
        let status = register_u32_read(dap, self.baseaddr, CtiOffset::CTIGATE.to_u64());
        let ghost r1 = dap.dap_resps();
        let mask = !(1u32 << channel);
        register_u32_write(dap, self.baseaddr, CtiOffset::CTIGATE.to_u64(), status & mask);
        proof {
            lemma_resps_chain(r0, r1, final(dap).dap_resps(), 20, 20);
            assert(final(dap).dap_resps()[r0.len() as int + 19] == r1.last());
        }
    }

    /// Route channel `channel` to input trigger `trigger`:
    /// read-modify-write the trigger's CTIINEN register.
    pub fn input_trigger_enable<D: DebugPort + MemoryAccessPort>(
        &self,
        dap: &mut D,
        trigger: u8,
        channel: u8,
    )
        requires
            old(dap).dap_inv(),
            trigger < 32,
            channel < 32,
            component_fits(self.baseaddr, ((0x020 + (trigger as int) * 4) as u64)),
        ensures
            final(dap).dap_inv(),
            final(dap).dap_route() == old(dap).dap_route(),
            resps_extended(old(dap).dap_resps(), final(dap).dap_resps(), 40),
            final(dap).dap_ops() == old(dap).dap_ops() + register_u32_ops(
                old(dap).dap_route(),
                self.baseaddr,
                ((0x020 + (trigger as int) * 4) as u64),
                0,
                true,
            ) + register_u32_ops(
                old(dap).dap_route(),
                self.baseaddr,
                ((0x020 + (trigger as int) * 4) as u64),
                (final(dap).dap_resps()[old(dap).dap_resps().len() as int + 19].1) | (1u32
                    << channel),
                false,
            ),
    {
        let offset = CtiOffset::CTIINENn.to_u64() + (trigger as u64) * 4;
        let ghost r0 = dap.dap_resps();
        let status = register_u32_read(dap, self.baseaddr, offset);
        let ghost r1 = dap.dap_resps();
        register_u32_write(dap, self.baseaddr, offset, status | (1u32 << channel));
        proof {
            lemma_resps_chain(r0, r1, final(dap).dap_resps(), 20, 20);
            assert(final(dap).dap_resps()[r0.len() as int + 19] == r1.last());
        }
    }

    /// Unroute channel `channel` from input trigger `trigger`.
    pub fn input_trigger_disable<D: DebugPort + MemoryAccessPort>(
        &self,
        dap: &mut D,
        trigger: u8,
        channel: u8,
    )
        requires
            old(dap).dap_inv(),
            trigger < 32,
            channel < 32,
            component_fits(self.baseaddr, ((0x020 + (trigger as int) * 4) as u64)),
        ensures
            final(dap).dap_inv(),
            final(dap).dap_route() == old(dap).dap_route(),
            resps_extended(old(dap).dap_resps(), final(dap).dap_resps(), 40),
            final(dap).dap_ops() == old(dap).dap_ops() + register_u32_ops(
                old(dap).dap_route(),
                self.baseaddr,
                ((0x020 + (trigger as int) * 4) as u64),
                0,
                true,
            ) + register_u32_ops(
                old(dap).dap_route(),
                self.baseaddr,
                ((0x020 + (trigger as int) * 4) as u64),
                (final(dap).dap_resps()[old(dap).dap_resps().len() as int + 19].1) & !(1u32
                    << channel),
                false,
            ),
    {
        let offset = CtiOffset::CTIINENn.to_u64() + (trigger as u64) * 4;
        let ghost r0 = dap.dap_resps();
        let status = register_u32_read(dap, self.baseaddr, offset);
        let ghost r1 = dap.dap_resps();
        let mask = !(1u32 << channel);
        register_u32_write(dap, self.baseaddr, offset, status & mask);
        proof {
            lemma_resps_chain(r0, r1, final(dap).dap_resps(), 20, 20);
            assert(final(dap).dap_resps()[r0.len() as int + 19] == r1.last());
        }
    }

    /// Route output trigger `trigger` to channel `channel`:
    /// read-modify-write the trigger's CTIOUTEN register.
    pub fn output_trigger_enable<D: DebugPort + MemoryAccessPort>(
        &self,
        dap: &mut D,
        trigger: u8,
        channel: u8,
    )
        requires
            old(dap).dap_inv(),
            trigger < 32,
            channel < 32,
            component_fits(self.baseaddr, ((0x0A0 + (trigger as int) * 4) as u64)),
        ensures
            final(dap).dap_inv(),
            final(dap).dap_route() == old(dap).dap_route(),
            resps_extended(old(dap).dap_resps(), final(dap).dap_resps(), 40),
            final(dap).dap_ops() == old(dap).dap_ops() + register_u32_ops(
                old(dap).dap_route(),
                self.baseaddr,
                ((0x0A0 + (trigger as int) * 4) as u64),
                0,
                true,
            ) + register_u32_ops(
                old(dap).dap_route(),
                self.baseaddr,
                ((0x0A0 + (trigger as int) * 4) as u64),
                (final(dap).dap_resps()[old(dap).dap_resps().len() as int + 19].1) | (1u32
                    << channel),
                false,
            ),
    {
        let offset = CtiOffset::CTIOUTENn.to_u64() + (trigger as u64) * 4;
        let ghost r0 = dap.dap_resps();
        let status = register_u32_read(dap, self.baseaddr, offset);
        let ghost r1 = dap.dap_resps();
        register_u32_write(dap, self.baseaddr, offset, status | (1u32 << channel));
        proof {
            lemma_resps_chain(r0, r1, final(dap).dap_resps(), 20, 20);
            assert(final(dap).dap_resps()[r0.len() as int + 19] == r1.last());
        }
    }

    /// Unroute output trigger `trigger` from channel `channel`.
    pub fn output_trigger_disable<D: DebugPort + MemoryAccessPort>(
        &self,
        dap: &mut D,
        trigger: u8,
        channel: u8,
    )
        requires
            old(dap).dap_inv(),
            trigger < 32,
            channel < 32,
            component_fits(self.baseaddr, ((0x0A0 + (trigger as int) * 4) as u64)),
        ensures
            final(dap).dap_inv(),
            final(dap).dap_route() == old(dap).dap_route(),
            resps_extended(old(dap).dap_resps(), final(dap).dap_resps(), 40),
            final(dap).dap_ops() == old(dap).dap_ops() + register_u32_ops(
                old(dap).dap_route(),
                self.baseaddr,
                ((0x0A0 + (trigger as int) * 4) as u64),
                0,
                true,
            ) + register_u32_ops(
                old(dap).dap_route(),
                self.baseaddr,
                ((0x0A0 + (trigger as int) * 4) as u64),
                (final(dap).dap_resps()[old(dap).dap_resps().len() as int + 19].1) & !(1u32
                    << channel),
                false,
            ),
    {
        let offset = CtiOffset::CTIOUTENn.to_u64() + (trigger as u64) * 4;
        let ghost r0 = dap.dap_resps();
        let status = register_u32_read(dap, self.baseaddr, offset);
        let ghost r1 = dap.dap_resps();
        let mask = !(1u32 << channel);
        register_u32_write(dap, self.baseaddr, offset, status & mask);
        proof {
            lemma_resps_chain(r0, r1, final(dap).dap_resps(), 20, 20);
            assert(final(dap).dap_resps()[r0.len() as int + 19] == r1.last());
        }
    }

    /// Acknowledge and deactivate output trigger `trigger`: write
    /// its bit to CTIINTACK.
    pub fn output_trigger_ack_deactivate<D: DebugPort + MemoryAccessPort>(
        &self,
        dap: &mut D,
        trigger: u8,
    )
        requires
            old(dap).dap_inv(),
            trigger < 32,
            component_fits(self.baseaddr, 0x140),
        ensures
            final(dap).dap_inv(),
            final(dap).dap_route() == old(dap).dap_route(),
            final(dap).dap_ops() == old(dap).dap_ops() + register_u32_ops(
                old(dap).dap_route(),
                self.baseaddr,
                0x010,
                1u32 << trigger,
                false,
            ),
            resps_extended(old(dap).dap_resps(), final(dap).dap_resps(), 20),
    {
        register_u32_write(dap, self.baseaddr, CtiOffset::CTIINTACK.to_u64(), 1u32 << trigger);
    }

    /// Whether input trigger `trigger` is asserted.
    pub fn input_trigger_status<D: DebugPort + MemoryAccessPort>(
        &self,
        dap: &mut D,
        trigger: u8,
    ) -> (r: bool)
        requires
            old(dap).dap_inv(),
            trigger < 32,
            component_fits(self.baseaddr, 0x140),
        ensures
            final(dap).dap_inv(),
            final(dap).dap_route() == old(dap).dap_route(),
            final(dap).dap_ops() == old(dap).dap_ops() + register_u32_ops(
                old(dap).dap_route(),
                self.baseaddr,
                0x130,
                0,
                true,
            ),
            resps_extended(old(dap).dap_resps(), final(dap).dap_resps(), 20),
            r == ((final(dap).dap_resps().last().1 & (1u32 << trigger)) != 0),
    {
        let status = register_u32_read(dap, self.baseaddr, CtiOffset::CTITRIGINSTATUS.to_u64());
        (status & (1u32 << trigger)) != 0
    }

    /// Whether output trigger `trigger` is asserted.
    pub fn output_trigger_status<D: DebugPort + MemoryAccessPort>(
        &self,
        dap: &mut D,
        trigger: u8,
    ) -> (r: bool)
        requires
            old(dap).dap_inv(),
            trigger < 32,
            component_fits(self.baseaddr, 0x140),
        ensures
            final(dap).dap_inv(),
            final(dap).dap_route() == old(dap).dap_route(),
            final(dap).dap_ops() == old(dap).dap_ops() + register_u32_ops(
                old(dap).dap_route(),
                self.baseaddr,
                0x134,
                0,
                true,
            ),
            resps_extended(old(dap).dap_resps(), final(dap).dap_resps(), 20),
            r == ((final(dap).dap_resps().last().1 & (1u32 << trigger)) != 0),
    {
        let status = register_u32_read(dap, self.baseaddr, CtiOffset::CTITRIGOUTSTATUS.to_u64());
        (status & (1u32 << trigger)) != 0
    }

    /// Pulse channel `channel`: write its bit to CTIAPPPULSE.
    pub fn generate_pulse<D: DebugPort + MemoryAccessPort>(&self, dap: &mut D, channel: u32)
        requires
            old(dap).dap_inv(),
            channel < 32,
            component_fits(self.baseaddr, 0x140),
        ensures
            final(dap).dap_inv(),
            final(dap).dap_route() == old(dap).dap_route(),
            final(dap).dap_ops() == old(dap).dap_ops() + register_u32_ops(
                old(dap).dap_route(),
                self.baseaddr,
                0x01C,
                1u32 << channel,
                false,
            ),
            resps_extended(old(dap).dap_resps(), final(dap).dap_resps(), 20),
    {
        register_u32_write(dap, self.baseaddr, CtiOffset::CTIAPPPULSE.to_u64(), 1u32 << channel);
    }
}

/// An AArch64 core's external debug component at a fixed base
/// address; its registers are reached through the shared DAP handed
/// to each call.
pub struct A64Target {
    pub baseaddr: u64,
}

impl A64Target {
    /// Read EDSCR.
    pub fn edscr_read<D: DebugPort + MemoryAccessPort>(&self, dap: &mut D) -> (r: EDSCR)
        requires
            old(dap).dap_inv(),
            component_fits(self.baseaddr, 0xFFF),
        ensures
            final(dap).dap_inv(),
            final(dap).dap_route() == old(dap).dap_route(),
            final(dap).dap_ops() == old(dap).dap_ops() + register_u32_ops(
                old(dap).dap_route(),
                self.baseaddr,
                0x088,
                0,
                true,
            ),
            resps_extended(old(dap).dap_resps(), final(dap).dap_resps(), 20),
            r == (EDSCR { 0: final(dap).dap_resps().last().1 }),
    {
        EDSCR(register_u32_read(dap, self.baseaddr, Armv8DebugRegisterOffset::EDSCR.to_u64()))
    }

    /// Write EDSCR.
    pub fn edscr_write<D: DebugPort + MemoryAccessPort>(&self, dap: &mut D, data: EDSCR)
        requires
            old(dap).dap_inv(),
            component_fits(self.baseaddr, 0xFFF),
        ensures
            final(dap).dap_inv(),
            final(dap).dap_route() == old(dap).dap_route(),
            final(dap).dap_ops() == old(dap).dap_ops() + register_u32_ops(
                old(dap).dap_route(),
                self.baseaddr,
                0x088,
                data.0,
                false,
            ),
            resps_extended(old(dap).dap_resps(), final(dap).dap_resps(), 20),
    {
        register_u32_write(dap, self.baseaddr, Armv8DebugRegisterOffset::EDSCR.to_u64(), data.0);
    }

    /// Write EDRCR.
    pub fn edrcr_write<D: DebugPort + MemoryAccessPort>(&self, dap: &mut D, data: EDRCR)
        requires
            old(dap).dap_inv(),
            component_fits(self.baseaddr, 0xFFF),
        ensures
            final(dap).dap_inv(),
            final(dap).dap_route() == old(dap).dap_route(),
            final(dap).dap_ops() == old(dap).dap_ops() + register_u32_ops(
                old(dap).dap_route(),
                self.baseaddr,
                0x090,
                data.0,
                false,
            ),
            resps_extended(old(dap).dap_resps(), final(dap).dap_resps(), 20),
    {
        register_u32_write(dap, self.baseaddr, Armv8DebugRegisterOffset::EDRCR.to_u64(), data.0);
    }

    /// Read EDRCR.
    pub fn edrcr_read<D: DebugPort + MemoryAccessPort>(&self, dap: &mut D) -> (r: EDRCR)
        requires
            old(dap).dap_inv(),
            component_fits(self.baseaddr, 0xFFF),
        ensures
            final(dap).dap_inv(),
            final(dap).dap_route() == old(dap).dap_route(),
            final(dap).dap_ops() == old(dap).dap_ops() + register_u32_ops(
                old(dap).dap_route(),
                self.baseaddr,
                0x090,
                0,
                true,
            ),
            resps_extended(old(dap).dap_resps(), final(dap).dap_resps(), 20),
            r == (EDRCR { 0: final(dap).dap_resps().last().1 }),
    {
        EDRCR(register_u32_read(dap, self.baseaddr, Armv8DebugRegisterOffset::EDRCR.to_u64()))
    }

    /// Write OSLAR_EL1 (0 unlocks the OS lock).
    pub fn oslar_write<D: DebugPort + MemoryAccessPort>(&self, dap: &mut D, oslk: u32)
        requires
            old(dap).dap_inv(),
            component_fits(self.baseaddr, 0xFFF),
        ensures
            final(dap).dap_inv(),
            final(dap).dap_route() == old(dap).dap_route(),
            final(dap).dap_ops() == old(dap).dap_ops() + register_u32_ops(
                old(dap).dap_route(),
                self.baseaddr,
                0x300,
                oslk,
                false,
            ),
            resps_extended(old(dap).dap_resps(), final(dap).dap_resps(), 20),
    {
        register_u32_write(dap, self.baseaddr, Armv8DebugRegisterOffset::OSLAR_EL1.to_u64(), oslk);
    }

    /// Read EDPRSR.
    pub fn edprsr_read<D: DebugPort + MemoryAccessPort>(&self, dap: &mut D) -> (r: EDPRSR)
        requires
            old(dap).dap_inv(),
            component_fits(self.baseaddr, 0xFFF),
        ensures
            final(dap).dap_inv(),
            final(dap).dap_route() == old(dap).dap_route(),
            final(dap).dap_ops() == old(dap).dap_ops() + register_u32_ops(
                old(dap).dap_route(),
                self.baseaddr,
                0x314,
                0,
                true,
            ),
            resps_extended(old(dap).dap_resps(), final(dap).dap_resps(), 20),
            r == (EDPRSR { 0: final(dap).dap_resps().last().1 }),
    {
        EDPRSR(register_u32_read(dap, self.baseaddr, Armv8DebugRegisterOffset::EDPRSR.to_u64()))
    }
}

} // verus!
