//! The ARM JTAG-DP access protocol: 35-bit DPACC/APACC scans over the
//! TAP, acknowledgement decoding, the posted-read RDBUFF handshake,
//! SELECT bank routing, CTRL/STAT power-up and the MEM-AP register
//! map. Contracts at this layer pin down exactly which DP and AP
//! accesses a call issues.

use crate::bits::{bit_seq, bits_val, min_nat, push_bit_seq, take_pad, window_val};
use crate::interface::{tdi_entries, tms_entries, JtagInterface};
use crate::jtag::{change_tms, shift_prefix, TAP};
use crate::jtag_state_machine::JtagState;
use vstd::prelude::*;

verus! {

/// One access issued to the wire: a Debug Port or Access Port scan
/// with its data word, 2-bit register address and read/write flag.
#[derive(Clone, Copy, Debug, PartialEq, Eq, Structural)]
pub enum DapOp {
    Dp { data: u32, a: u8, rnw: bool },
    Ap { data: u32, a: u8, rnw: bool },
}

/// JTAG-DP instruction register opcodes (4 bits).
#[derive(Clone, Copy, Debug, PartialEq, Eq, Structural)]
#[allow(non_camel_case_types)]
pub enum Instruction {
    ABORT,
    DPACC,
    APACC,
    IDCODE,
    BYPASS,
}

impl Instruction {
    /// The 4-bit opcode shifted into the instruction register.
    pub fn to_u8(self) -> (r: u8)
        ensures
            r == spec_instruction_u8(self),
    {
        match self {
            Instruction::ABORT => 0b1000,
            Instruction::DPACC => 0b1010,
            Instruction::APACC => 0b1011,
            Instruction::IDCODE => 0b1110,
            Instruction::BYPASS => 0b1111,
        }
    }
}

/// The 4-bit opcode of each instruction.
pub open spec fn spec_instruction_u8(i: Instruction) -> u8 {
    match i {
        Instruction::ABORT => 0b1000,
        Instruction::DPACC => 0b1010,
        Instruction::APACC => 0b1011,
        Instruction::IDCODE => 0b1110,
        Instruction::BYPASS => 0b1111,
    }
}

/// DP register addresses, as the A[3:2] field of a DPACC scan.
/// Address 0b00 is DPIDR on read and ABORT on write.
#[derive(Clone, Copy, Debug, PartialEq, Eq, Structural)]
#[allow(non_camel_case_types)]
pub enum DpAddress {
    PDIDR_ABORT,
    CTRLSTAT,
    SELECT,
    RDBUFF,
}

impl DpAddress {
    /// The 2-bit address value.
    pub fn to_u8(self) -> (r: u8)
        ensures
            r == spec_dp_address_u8(self),
    {
        match self {
            DpAddress::PDIDR_ABORT => 0b00,
            DpAddress::CTRLSTAT => 0b01,
            DpAddress::SELECT => 0b10,
            DpAddress::RDBUFF => 0b11,
        }
    }
}

/// The 2-bit address of each DP register.
pub open spec fn spec_dp_address_u8(a: DpAddress) -> u8 {
    match a {
        DpAddress::PDIDR_ABORT => 0b00,
        DpAddress::CTRLSTAT => 0b01,
        DpAddress::SELECT => 0b10,
        DpAddress::RDBUFF => 0b11,
    }
}

/// The three meanings of a 3-bit scan acknowledgement.
#[derive(Clone, Copy, Debug, PartialEq, Eq, Structural)]
pub enum DapAck {
    Wait,
    OkFault,
    InvalidAck,
}

/// How a raw 3-bit acknowledgement decodes: 0b010 is OK/FAULT, 0b001
/// is WAIT, anything else is invalid.
pub open spec fn spec_dap_ack(ack: u8) -> DapAck {
    if ack == 0x01 {
        DapAck::Wait
    } else if ack == 0x02 {
        DapAck::OkFault
    } else {
        DapAck::InvalidAck
    }
}

impl DapAck {
    /// Decode a raw acknowledgement value.
    pub fn from_u8(ack: u8) -> (r: DapAck)
        ensures
            r == spec_dap_ack(ack),
    {
        match ack {
            0x01 => DapAck::Wait,
            0x02 => DapAck::OkFault,
            _ => DapAck::InvalidAck,
        }
    }
}

/// The DP SELECT register: `{apsel[31:24], apbanksel[7:4],
/// dpbanksel[3:0]}`.
#[derive(Clone, Copy, Debug, PartialEq, Eq, Structural)]
pub struct DpSelect(pub u32);

impl DpSelect {
    pub fn apsel(&self) -> (r: u32)
        ensures
            r == (self.0 >> 24) & 0xff,
    {
        (self.0 >> 24) & 0xff
    }

    pub fn set_apsel(&mut self, v: u32)
        ensures
            final(self).0 == (old(self).0 & !(0xffu32 << 24)) | ((v & 0xff) << 24),
    {
        self.0 = (self.0 & !(0xffu32 << 24)) | ((v & 0xff) << 24);
    }

    pub fn apbanksel(&self) -> (r: u32)
        ensures
            r == (self.0 >> 4) & 0xf,
    {
        (self.0 >> 4) & 0xf
    }

    pub fn set_apbanksel(&mut self, v: u32)
        ensures
            final(self).0 == (old(self).0 & !(0xfu32 << 4)) | ((v & 0xf) << 4),
    {
        self.0 = (self.0 & !(0xfu32 << 4)) | ((v & 0xf) << 4);
    }

    pub fn dpbanksel(&self) -> (r: u32)
        ensures
            r == self.0 & 0xf,
    {
        self.0 & 0xf
    }

    pub fn set_dpbanksel(&mut self, v: u32)
        ensures
            final(self).0 == (old(self).0 & !0xfu32) | (v & 0xf),
    {
        self.0 = (self.0 & !0xfu32) | (v & 0xf);
    }
}

/// The SELECT word written for the given AP index and bank fields.
pub open spec fn spec_select_word(apsel: u8, apbanksel: u8, dpbanksel: u8) -> u32 {
    (((apsel as u32) & 0xff) << 24) | (((apbanksel as u32) & 0xf) << 4) | ((dpbanksel as u32)
        & 0xf)
}

/// The DP CTRL/STAT register.
#[derive(Clone, Copy, Debug, PartialEq, Eq, Structural)]
pub struct CtrlStatus(pub u32);

#[allow(non_snake_case)]
impl CtrlStatus {
    pub fn CSYSPWRUPACK(&self) -> (r: u32)
        ensures
            r == (self.0 >> 31) & 1,
    {
        (self.0 >> 31) & 1
    }

    pub fn CSYSPWRUPREQ(&self) -> (r: u32)
        ensures
            r == (self.0 >> 30) & 1,
    {
        (self.0 >> 30) & 1
    }

    pub fn set_CSYSPWRUPREQ(&mut self, v: u32)
        ensures
            final(self).0 == (old(self).0 & !(1u32 << 30)) | ((v & 1) << 30),
    {
        self.0 = (self.0 & !(1u32 << 30)) | ((v & 1) << 30);
    }

    pub fn CDBGPWRUPACK(&self) -> (r: u32)
        ensures
            r == (self.0 >> 29) & 1,
    {
        (self.0 >> 29) & 1
    }

    pub fn CDBGPWRUPREQ(&self) -> (r: u32)
        ensures
            r == (self.0 >> 28) & 1,
    {
        (self.0 >> 28) & 1
    }

    pub fn set_CDBGPWRUPREQ(&mut self, v: u32)
        ensures
            final(self).0 == (old(self).0 & !(1u32 << 28)) | ((v & 1) << 28),
    {
        self.0 = (self.0 & !(1u32 << 28)) | ((v & 1) << 28);
    }

    pub fn CDBGRSTACK(&self) -> (r: u32)
        ensures
            r == (self.0 >> 27) & 1,
    {
        (self.0 >> 27) & 1
    }

    pub fn set_CDBGRSTREQ(&mut self, v: u32)
        ensures
            final(self).0 == (old(self).0 & !(1u32 << 26)) | ((v & 1) << 26),
    {
        self.0 = (self.0 & !(1u32 << 26)) | ((v & 1) << 26);
    }

    pub fn STICKYERR(&self) -> (r: u32)
        ensures
            r == (self.0 >> 5) & 1,
    {
        (self.0 >> 5) & 1
    }

    pub fn set_STICKYERR(&mut self, v: u32)
        ensures
            final(self).0 == (old(self).0 & !(1u32 << 5)) | ((v & 1) << 5),
    {
        self.0 = (self.0 & !(1u32 << 5)) | ((v & 1) << 5);
    }

    pub fn TRNCNT(&self) -> (r: u32)
        ensures
            r == (self.0 >> 12) & 0xfff,
    {
        (self.0 >> 12) & 0xfff
    }

    pub fn MASKLANE(&self) -> (r: u32)
        ensures
            r == (self.0 >> 8) & 0xf,
    {
        (self.0 >> 8) & 0xf
    }

    pub fn WDATAERR(&self) -> (r: u32)
        ensures
            r == (self.0 >> 7) & 0x1,
    {
        (self.0 >> 7) & 0x1
    }

    pub fn READOK(&self) -> (r: u32)
        ensures
            r == (self.0 >> 6) & 0x1,
    {
        (self.0 >> 6) & 0x1
    }

    pub fn STICKYCMP(&self) -> (r: u32)
        ensures
            r == (self.0 >> 4) & 0x1,
    {
        (self.0 >> 4) & 0x1
    }

    pub fn TRNMODE(&self) -> (r: u32)
        ensures
            r == (self.0 >> 2) & 0x3,
    {
        (self.0 >> 2) & 0x3
    }

    pub fn STICKYORUN(&self) -> (r: u32)
        ensures
            r == (self.0 >> 1) & 0x1,
    {
        (self.0 >> 1) & 0x1
    }

    pub fn ORUNDETECT(&self) -> (r: u32)
        ensures
            r == self.0 & 0x1,
    {
        self.0 & 0x1
    }
}

/// The MEM-AP Control/Status Word.
#[derive(Clone, Copy, Debug, PartialEq, Eq, Structural)]
pub struct CSW(pub u32);

#[allow(non_snake_case)]
impl CSW {
    pub fn DbgSwEnable(&self) -> (r: u32)
        ensures
            r == (self.0 >> 31) & 1,
    {
        (self.0 >> 31) & 1
    }

    pub fn set_DbgSwEnable(&mut self, v: u32)
        ensures
            final(self).0 == (old(self).0 & !(1u32 << 31)) | ((v & 1) << 31),
    {
        self.0 = (self.0 & !(1u32 << 31)) | ((v & 1) << 31);
    }

    pub fn DeviceEn(&self) -> (r: u32)
        ensures
            r == (self.0 >> 6) & 1,
    {
        (self.0 >> 6) & 1
    }

    pub fn AddrInc(&self) -> (r: u32)
        ensures
            r == (self.0 >> 4) & 3,
    {
        (self.0 >> 4) & 3
    }

    pub fn SIZE(&self) -> (r: u32)
        ensures
            r == self.0 & 7,
    {
        self.0 & 7
    }

    pub fn PROT(&self) -> (r: u32)
        ensures
            r == (self.0 >> 28) & 0x7,
    {
        (self.0 >> 28) & 0x7
    }

    pub fn CACHE(&self) -> (r: u32)
        ensures
            r == (self.0 >> 24) & 0xf,
    {
        (self.0 >> 24) & 0xf
    }

    pub fn SPDIN(&self) -> (r: u32)
        ensures
            r == (self.0 >> 23) & 0x1,
    {
        (self.0 >> 23) & 0x1
    }

    pub fn Type(&self) -> (r: u32)
        ensures
            r == (self.0 >> 12) & 0xf,
    {
        (self.0 >> 12) & 0xf
    }

    pub fn Mode(&self) -> (r: u32)
        ensures
            r == (self.0 >> 8) & 0xf,
    {
        (self.0 >> 8) & 0xf
    }

    pub fn TrInProg(&self) -> (r: u32)
        ensures
            r == (self.0 >> 7) & 0x1,
    {
        (self.0 >> 7) & 0x1
    }
}

/// The DPIDR identification register of a DPv1+ debug port.
#[derive(Clone, Copy, Debug, PartialEq, Eq, Structural)]
pub struct PdIdr(pub u32);

#[allow(non_snake_case)]
impl PdIdr {
    pub fn REVISION(&self) -> (r: u32)
        ensures
            r == (self.0 >> 28) & 0xf,
    {
        (self.0 >> 28) & 0xf
    }

    pub fn PARTNO(&self) -> (r: u32)
        ensures
            r == (self.0 >> 20) & 0xff,
    {
        (self.0 >> 20) & 0xff
    }

    pub fn MIN(&self) -> (r: u32)
        ensures
            r == (self.0 >> 16) & 0x1,
    {
        (self.0 >> 16) & 0x1
    }

    pub fn VERSION(&self) -> (r: u32)
        ensures
            r == (self.0 >> 12) & 0xf,
    {
        (self.0 >> 12) & 0xf
    }

    pub fn DESIGNER(&self) -> (r: u32)
        ensures
            r == (self.0 >> 1) & 0x7ff,
    {
        (self.0 >> 1) & 0x7ff
    }

    pub fn RAO(&self) -> (r: u32)
        ensures
            r == self.0 & 0x1,
    {
        self.0 & 0x1
    }
}

/// MEM-AP register byte offsets. Each decomposes into an APBANKSEL
/// value (bits [7:4]) and a word index (bits [3:2]).
#[derive(Clone, Copy, Debug, PartialEq, Eq, Structural)]
#[allow(non_camel_case_types)]
pub enum MemapAddress {
    CSW,
    TARlo,
    TARhi,
    DRW,
    BD0,
    BD1,
    BD2,
    BD3,
    MBT,
    BASEhi,
    CFG,
    BASElo,
    IDR,
}

impl MemapAddress {
    /// The byte offset of the register in MEM-AP register space.
    pub fn to_u8(self) -> (r: u8)
        ensures
            r == spec_memap_offset(self),
    {
        match self {
            MemapAddress::CSW => 0x00,
            MemapAddress::TARlo => 0x04,
            MemapAddress::TARhi => 0x08,
            MemapAddress::DRW => 0x0C,
            MemapAddress::BD0 => 0x10,
            MemapAddress::BD1 => 0x14,
            MemapAddress::BD2 => 0x18,
            MemapAddress::BD3 => 0x1C,
            MemapAddress::MBT => 0x20,
            MemapAddress::BASEhi => 0xF0,
            MemapAddress::CFG => 0xF4,
            MemapAddress::BASElo => 0xF8,
            MemapAddress::IDR => 0xFC,
        }
    }
}

/// The byte offset of each MEM-AP register.
pub open spec fn spec_memap_offset(a: MemapAddress) -> u8 {
    match a {
        MemapAddress::CSW => 0x00,
        MemapAddress::TARlo => 0x04,
        MemapAddress::TARhi => 0x08,
        MemapAddress::DRW => 0x0C,
        MemapAddress::BD0 => 0x10,
        MemapAddress::BD1 => 0x14,
        MemapAddress::BD2 => 0x18,
        MemapAddress::BD3 => 0x1C,
        MemapAddress::MBT => 0x20,
        MemapAddress::BASEhi => 0xF0,
        MemapAddress::CFG => 0xF4,
        MemapAddress::BASElo => 0xF8,
        MemapAddress::IDR => 0xFC,
    }
}

/// The APBANKSEL field selected by a MEM-AP offset.
pub open spec fn spec_memap_bank(a: MemapAddress) -> u8 {
    ((spec_memap_offset(a) & 0xf0) >> 4) as u8
}

/// The word index (A[3:2]) selected by a MEM-AP offset.
pub open spec fn spec_memap_word(a: MemapAddress) -> u8 {
    ((spec_memap_offset(a) & 0x0f) >> 2) as u8
}

/// The 35 bits driven during a DPACC/APACC scan, LSB first: bit 0 is
/// RnW, bits 1..2 the register address A[3:2], bits 3..34 the data
/// word in little-endian bit order.
pub open spec fn acc_scan_bits(data: u32, a: u8, rnw: bool) -> Seq<bool> {
    seq![rnw, (a & 1) != 0, (a & 2) != 0] + bit_seq(data, 32)
}

/// The 3-bit acknowledgement collected from the first three bits
/// clocked out.
pub open spec fn spec_ack_bits(bits: Seq<bool>) -> u8 {
    (((if bits[0] {
        4u8
    } else {
        0u8
    }) + (if bits[1] {
        2u8
    } else {
        0u8
    }) + (if bits[2] {
        1u8
    } else {
        0u8
    })) as u8)
}

/// The 32-bit result word collected from bits 3..34 of the scan,
/// LSB first.
pub open spec fn spec_acc_result(bits: Seq<bool>) -> u32 {
    bits_val(bits.subrange(3, 35)) as u32
}

/// Build the 35-bit DPACC/APACC scan buffer.
pub fn encode_acc(data: u32, a: u8, rnw: bool) -> (r: Vec<bool>)
    ensures
        r@ == acc_scan_bits(data, a, rnw),
        r@.len() == 35,
{
    let mut v: Vec<bool> = Vec::new();
    v.push(rnw);
    v.push((a & 1) != 0);
    v.push((a & 2) != 0);
    push_bit_seq(&mut v, data, 32);
    proof {
        crate::bits::lemma_bit_seq_len(data, 32);
        assert(v@ =~= acc_scan_bits(data, a, rnw));
    }
    v
}

/// Collect (ack, result) from the 35 bits clocked out of a scan.
pub fn decode_acc(bits: &Vec<bool>) -> (r: (u8, u32))
    requires
        bits@.len() == 35,
    ensures
        r.0 == spec_ack_bits(bits@),
        r.1 == spec_acc_result(bits@),
{
    let ack: u8 = (if bits[0] {
        4
    } else {
        0
    }) + (if bits[1] {
        2
    } else {
        0
    }) + (if bits[2] {
        1
    } else {
        0
    });
    let result = window_val(bits, 3, 32);
    proof {
        crate::bits::lemma_bits_val_bound(bits@.subrange(3, 35));
        vstd::arithmetic::power2::lemma2_to64();
    }
    (ack, result)
}

/// The scan layout round-trips: the driven buffer carries RnW at bit
/// 0, A at bits 1..2 and the data word at bits 3..34, and collecting
/// the data half of such a buffer yields the word back.
pub proof fn lemma_acc_roundtrip(data: u32, a: u8, rnw: bool)
    ensures
        acc_scan_bits(data, a, rnw).len() == 35,
        acc_scan_bits(data, a, rnw)[0] == rnw,
        acc_scan_bits(data, a, rnw)[1] == ((a & 1) != 0),
        acc_scan_bits(data, a, rnw)[2] == ((a & 2) != 0),
        spec_acc_result(acc_scan_bits(data, a, rnw)) == data,
{
    crate::bits::lemma_bit_seq_len(data, 32);
    let s = acc_scan_bits(data, a, rnw);
    assert(s.subrange(3, 35) =~= bit_seq(data, 32));
    crate::bits::lemma_bits_val_bit_seq(data, 32);
    vstd::arithmetic::power2::lemma2_to64();
    vstd::arithmetic::div_mod::lemma_small_mod(
        data as nat,
        vstd::arithmetic::power2::pow2(32),
    );
}

/// A transport that can issue DPACC and APACC scans: the JTAG TAP
/// here, SWD elsewhere. `dap_ops` is the full sequence of accesses
/// issued so far and `dap_resps` the (ack, data) pair each of them
/// answered, so contracts higher up can say both what was asked and
/// what came back; `dap_route` is the AP index the transport's owner
/// routes to (0 where the notion does not apply); `dap_inv` is the
/// transport's own well-formedness, preserved by every operation.
pub trait DapInterface: Sized {
    /// The transport's well-formedness.
    spec fn dap_inv(&self) -> bool;

    /// Every DP/AP access issued so far, in order.
    spec fn dap_ops(&self) -> Seq<DapOp>;

    /// The raw (ack, result) pair each access answered, in order:
    /// entry `i` is what the scan `dap_ops()[i]` clocked out.
    spec fn dap_resps(&self) -> Seq<(u8, u32)>;

    /// The AP index used for MEM-AP routing.
    spec fn dap_route(&self) -> u8;

    /// Issue one APACC scan of (data, a, RnW); returns the raw
    /// (ack, result) pair clocked out, which is also recorded as the
    /// scan's response.
    fn apacc(&mut self, data: u32, a: u8, rnw: bool) -> (r: (u8, u32))
        requires
            old(self).dap_inv(),
            a < 4,
        ensures
            final(self).dap_inv(),
            final(self).dap_route() == old(self).dap_route(),
            final(self).dap_ops() == old(self).dap_ops().push((DapOp::Ap { data, a, rnw })),
            final(self).dap_resps() == old(self).dap_resps().push(r),
    ;

    /// Issue one DPACC scan of (data, a, RnW); returns the raw
    /// (ack, result) pair clocked out, which is also recorded as the
    /// scan's response.
    fn dpacc(&mut self, data: u32, a: u8, rnw: bool) -> (r: (u8, u32))
        requires
            old(self).dap_inv(),
            a < 4,
        ensures
            final(self).dap_inv(),
            final(self).dap_route() == old(self).dap_route(),
            final(self).dap_ops() == old(self).dap_ops().push((DapOp::Dp { data, a, rnw })),
            final(self).dap_resps() == old(self).dap_resps().push(r),
    ;
}

/// The response history `new` extends `old` by `n` answered scans.
pub open spec fn resps_extended(a: Seq<(u8, u32)>, b: Seq<(u8, u32)>, n: nat) -> bool {
    b.len() == a.len() + n && b.take(a.len() as int) == a
}

/// Extension composes, and the middle history's entries keep their
/// places in the final one.
pub proof fn lemma_resps_chain(a: Seq<(u8, u32)>, b: Seq<(u8, u32)>, c: Seq<(u8, u32)>, m: nat, n: nat)
    requires
        resps_extended(a, b, m),
        resps_extended(b, c, n),
    ensures
        resps_extended(a, c, (m + n) as nat),
        forall|i: int| 0 <= i < b.len() ==> c[i] == b[i],
{
    assert(forall|i: int| 0 <= i < b.len() ==> c.take(b.len() as int)[i] == c[i]);
    assert(forall|i: int| 0 <= i < a.len() ==> b.take(a.len() as int)[i] == b[i]);
    assert(c.take(a.len() as int) =~= a);
}

impl<T: JtagInterface> TAP<T> {
    /// One 35-bit DPACC/APACC scan through Shift-DR: drive the
    /// encoded buffer, return to Run-Test/Idle, and collect the
    /// acknowledgement and result word from the bits clocked out.
    pub fn acc(&mut self, data: u32, a: u8, rnw: bool) -> (r: (u8, u32))
        requires
            a < 4,
        ensures
            r.0 == spec_ack_bits(take_pad(old(self).jtag.interface.tdo_queue(), 35)),
            r.1 == spec_acc_result(take_pad(old(self).jtag.interface.tdo_queue(), 35)),
            final(self).jtag.state_machine.state == JtagState::RunIdle,
            final(self).jtag.interface.trace() == old(self).jtag.interface.trace() + tms_entries(
                shift_prefix(old(self).jtag.state_machine.state, JtagState::ShiftDR),
            ) + tdi_entries(acc_scan_bits(data, a, rnw), true) + tms_entries(
                change_tms(JtagState::Exit1DR, JtagState::RunIdle),
            ),
            final(self).jtag.interface.tdo_queue() == old(self).jtag.interface.tdo_queue().skip(
                min_nat(35, old(self).jtag.interface.tdo_queue().len()) as int,
            ),
            final(self).jtag.idcodes == old(self).jtag.idcodes,
            final(self).ir_len == old(self).ir_len,
            final(self).ops == old(self).ops,
            final(self).resps == old(self).resps,
    {
        let mut apacc_data = encode_acc(data, a, rnw);
        self.read_write_dr(&mut apacc_data, true, false, false);
        decode_acc(&apacc_data)
    }

    /// Recover from a sticky error: select the ABORT instruction and
    /// scan a 32-bit word with bit 0 (DAPABORT) set.
    pub fn abort(&mut self)
        requires
            1 <= old(self).ir_len <= 8,
        ensures
            final(self).jtag.state_machine.state == JtagState::RunIdle,
            final(self).jtag.interface.tdo_queue() == old(self).jtag.interface.tdo_queue().skip(
                min_nat(32, old(self).jtag.interface.tdo_queue().len()) as int,
            ),
            final(self).jtag.idcodes == old(self).jtag.idcodes,
            final(self).ir_len == old(self).ir_len,
            final(self).ops == old(self).ops,
            final(self).resps == old(self).resps,
            final(self).jtag.interface.trace() == old(self).jtag.interface.trace() + tms_entries(
                shift_prefix(old(self).jtag.state_machine.state, JtagState::ShiftIR),
            ) + tdi_entries(
                bit_seq(spec_instruction_u8(Instruction::ABORT) as u32, old(self).ir_len as nat),
                true,
            ) + tms_entries(change_tms(JtagState::Exit1IR, JtagState::RunIdle)) + tms_entries(
                shift_prefix(JtagState::RunIdle, JtagState::ShiftDR),
            ) + tdi_entries(bit_seq(1, 32), true) + tms_entries(
                change_tms(JtagState::Exit1DR, JtagState::RunIdle),
            ),
    {
        self.write_instruction(Instruction::ABORT.to_u8());
        let mut buffer: Vec<bool> = Vec::new();
        push_bit_seq(&mut buffer, 1, 32);
        proof {
            crate::bits::lemma_bit_seq_len(1, 32);
        }
        self.read_write_dr(&mut buffer, true, false, true);
    }
}

impl<T: JtagInterface> DapInterface for TAP<T> {
    open spec fn dap_inv(&self) -> bool {
        1 <= self.ir_len <= 8
    }

    open spec fn dap_ops(&self) -> Seq<DapOp> {
        self.ops@
    }

    open spec fn dap_resps(&self) -> Seq<(u8, u32)> {
        self.resps@
    }

    open spec fn dap_route(&self) -> u8 {
        0
    }

    fn apacc(&mut self, data: u32, a: u8, rnw: bool) -> (r: (u8, u32))
        ensures
            r.0 == spec_ack_bits(take_pad(old(self).jtag.interface.tdo_queue(), 35)),
            r.1 == spec_acc_result(take_pad(old(self).jtag.interface.tdo_queue(), 35)),
            final(self).jtag.state_machine.state == JtagState::RunIdle,
            final(self).jtag.interface.trace() == old(self).jtag.interface.trace() + tms_entries(
                shift_prefix(old(self).jtag.state_machine.state, JtagState::ShiftIR),
            ) + tdi_entries(
                bit_seq(spec_instruction_u8(Instruction::APACC) as u32, old(self).ir_len as nat),
                true,
            ) + tms_entries(change_tms(JtagState::Exit1IR, JtagState::RunIdle)) + tms_entries(
                shift_prefix(JtagState::RunIdle, JtagState::ShiftDR),
            ) + tdi_entries(acc_scan_bits(data, a, rnw), true) + tms_entries(
                change_tms(JtagState::Exit1DR, JtagState::RunIdle),
            ),
            final(self).jtag.interface.tdo_queue() == old(self).jtag.interface.tdo_queue().skip(
                min_nat(35, old(self).jtag.interface.tdo_queue().len()) as int,
            ),
            final(self).jtag.idcodes == old(self).jtag.idcodes,
            final(self).ir_len == old(self).ir_len,
    {
        self.write_instruction(Instruction::APACC.to_u8());
        let r = self.acc(data, a, rnw);
        self.ops.push(DapOp::Ap { data, a, rnw });
        self.resps.push(r);
        r
    }

    fn dpacc(&mut self, data: u32, a: u8, rnw: bool) -> (r: (u8, u32))
        ensures
            r.0 == spec_ack_bits(take_pad(old(self).jtag.interface.tdo_queue(), 35)),
            r.1 == spec_acc_result(take_pad(old(self).jtag.interface.tdo_queue(), 35)),
            final(self).jtag.state_machine.state == JtagState::RunIdle,
            final(self).jtag.interface.trace() == old(self).jtag.interface.trace() + tms_entries(
                shift_prefix(old(self).jtag.state_machine.state, JtagState::ShiftIR),
            ) + tdi_entries(
                bit_seq(spec_instruction_u8(Instruction::DPACC) as u32, old(self).ir_len as nat),
                true,
            ) + tms_entries(change_tms(JtagState::Exit1IR, JtagState::RunIdle)) + tms_entries(
                shift_prefix(JtagState::RunIdle, JtagState::ShiftDR),
            ) + tdi_entries(acc_scan_bits(data, a, rnw), true) + tms_entries(
                change_tms(JtagState::Exit1DR, JtagState::RunIdle),
            ),
            final(self).jtag.interface.tdo_queue() == old(self).jtag.interface.tdo_queue().skip(
                min_nat(35, old(self).jtag.interface.tdo_queue().len()) as int,
            ),
            final(self).jtag.idcodes == old(self).jtag.idcodes,
            final(self).ir_len == old(self).ir_len,
    {
        self.write_instruction(Instruction::DPACC.to_u8());
        let r = self.acc(data, a, rnw);
        self.ops.push(DapOp::Dp { data, a, rnw });
        self.resps.push(r);
        r
    }
}

/// The accesses a DP register write followed by the RDBUFF follow-up
/// read issues.
pub open spec fn dp_write_block(data: u32, a: u8) -> Seq<DapOp> {
    seq![(DapOp::Dp { data, a, rnw: false }), (DapOp::Dp { data: 0, a: 3, rnw: true })]
}

/// The accesses a DP register access plus RDBUFF follow-up issues.
pub open spec fn dp_acc_block(data: u32, a: u8, rnw: bool) -> Seq<DapOp> {
    seq![(DapOp::Dp { data, a, rnw }), (DapOp::Dp { data: 0, a: 3, rnw: true })]
}

/// DP register access over a DPACC transport, with the posted-access
/// discipline: every access is followed by an RDBUFF read, so the
/// value a read requested is collected before control returns. The
/// contracts state both the scans issued and, through `dap_resps`,
/// which scan's answer each function hands back.
pub trait DebugPort: DapInterface {
    /// Write 1 to the ABORT register (DP address 0b00).
    fn dp_abort_write(&mut self) -> (r: DapAck)
        requires
            old(self).dap_inv(),
        ensures
            final(self).dap_inv(),
            final(self).dap_route() == old(self).dap_route(),
            final(self).dap_ops() == old(self).dap_ops() + dp_acc_block(0, 0, false),
            resps_extended(old(self).dap_resps(), final(self).dap_resps(), 2),
            r == spec_dap_ack(final(self).dap_resps().last().0),
    {
        self.dpacc(0, DpAddress::PDIDR_ABORT.to_u8(), false);
        let (ack, _) = self.dp_rdbuff_read();
        proof {
            assert(final(self).dap_ops() =~= old(self).dap_ops() + dp_acc_block(0, 0, false));
            assert(final(self).dap_resps().take(old(self).dap_resps().len() as int)
                =~= old(self).dap_resps());
        }
        ack
    }

    /// Route the SELECT register: APSEL in bits 31:24, APBANKSEL in
    /// 7:4, DPBANKSEL in 3:0 (bank arguments are masked to 4 bits).
    fn dp_select_write(&mut self, apsel: u8, apbanksel: u8, dpbanksel: u8) -> (r: DapAck)
        requires
            old(self).dap_inv(),
        ensures
            final(self).dap_inv(),
            final(self).dap_route() == old(self).dap_route(),
            final(self).dap_ops() == old(self).dap_ops() + dp_acc_block(
                spec_select_word(apsel, apbanksel, dpbanksel),
                2,
                false,
            ),
            resps_extended(old(self).dap_resps(), final(self).dap_resps(), 2),
            r == spec_dap_ack(final(self).dap_resps().last().0),
    {
        let mut select = DpSelect(0);
        select.set_apsel(apsel as u32);
        select.set_apbanksel((apbanksel & 0x0f) as u32);
        select.set_dpbanksel((dpbanksel & 0x0f) as u32);
        proof {
            assert((((((0u32 & !(0xffu32 << 24)) | (((apsel as u32) & 0xff) << 24)) & !(0xfu32
                << 4)) | ((((apbanksel as u32) & 0x0f) & 0xf) << 4)) & !0xfu32) | (((dpbanksel
                as u32) & 0x0f) & 0xf) == ((((apsel as u32) & 0xff) << 24) | (((apbanksel as u32)
                & 0xf) << 4) | ((dpbanksel as u32) & 0xf))) by (bit_vector);
        }
        self.dpacc(select.0, DpAddress::SELECT.to_u8(), false);
        let (ack, _) = self.dp_rdbuff_read();
        proof {
            assert(final(self).dap_ops() =~= old(self).dap_ops() + dp_acc_block(
                spec_select_word(apsel, apbanksel, dpbanksel),
                2,
                false,
            ));
            assert(final(self).dap_resps().take(old(self).dap_resps().len() as int)
                =~= old(self).dap_resps());
        }
        ack
    }

    /// Read RDBUFF (DP address 0b11): collects the posted result of
    /// the previous access without posting a new one.
    fn dp_rdbuff_read(&mut self) -> (r: (DapAck, u32))
        requires
            old(self).dap_inv(),
        ensures
            final(self).dap_inv(),
            final(self).dap_route() == old(self).dap_route(),
            final(self).dap_ops() == old(self).dap_ops().push(
                (DapOp::Dp { data: 0, a: 3, rnw: true }),
            ),
            resps_extended(old(self).dap_resps(), final(self).dap_resps(), 1),
            r.0 == spec_dap_ack(final(self).dap_resps().last().0),
            r.1 == final(self).dap_resps().last().1,
    {
        let (ack, data) = self.dpacc(0, DpAddress::RDBUFF.to_u8(), true);
        proof {
            assert(final(self).dap_resps().take(old(self).dap_resps().len() as int)
                =~= old(self).dap_resps());
        }
        (DapAck::from_u8(ack), data)
    }

    /// Access CTRL/STAT (DP address 0b01), write or posted read.
    fn dp_ctrlstat(&mut self, control: CtrlStatus, read: bool) -> (r: (DapAck, CtrlStatus))
        requires
            old(self).dap_inv(),
        ensures
            final(self).dap_inv(),
            final(self).dap_route() == old(self).dap_route(),
            final(self).dap_ops() == old(self).dap_ops() + dp_acc_block(control.0, 1, read),
            resps_extended(old(self).dap_resps(), final(self).dap_resps(), 2),
            r.0 == spec_dap_ack(final(self).dap_resps().last().0),
            r.1 == (CtrlStatus { 0: final(self).dap_resps().last().1 }),
    {
        self.dpacc(control.0, DpAddress::CTRLSTAT.to_u8(), read);
        let (ack, result) = self.dp_rdbuff_read();
        proof {
            assert(final(self).dap_ops() =~= old(self).dap_ops() + dp_acc_block(
                control.0,
                1,
                read,
            ));
            assert(final(self).dap_resps().take(old(self).dap_resps().len() as int)
                =~= old(self).dap_resps());
        }
        (ack, CtrlStatus(result))
    }

    /// Posted read of CTRL/STAT.
    fn dp_ctrlstat_read(&mut self) -> (r: (DapAck, CtrlStatus))
        requires
            old(self).dap_inv(),
        ensures
            final(self).dap_inv(),
            final(self).dap_route() == old(self).dap_route(),
            final(self).dap_ops() == old(self).dap_ops() + dp_acc_block(0, 1, true),
            resps_extended(old(self).dap_resps(), final(self).dap_resps(), 2),
            r.0 == spec_dap_ack(final(self).dap_resps().last().0),
            r.1 == (CtrlStatus { 0: final(self).dap_resps().last().1 }),
    {
        self.dp_ctrlstat(CtrlStatus(0), true)
    }

    /// Write CTRL/STAT.
    fn dp_ctrlstat_write(&mut self, control: CtrlStatus) -> (r: DapAck)
        requires
            old(self).dap_inv(),
        ensures
            final(self).dap_inv(),
            final(self).dap_route() == old(self).dap_route(),
            final(self).dap_ops() == old(self).dap_ops() + dp_acc_block(control.0, 1, false),
            resps_extended(old(self).dap_resps(), final(self).dap_resps(), 2),
            r == spec_dap_ack(final(self).dap_resps().last().0),
    {
        let (ack, _) = self.dp_ctrlstat(control, false);
        ack
    }
}

/// The four accesses one MEM-AP register access issues: SELECT
/// routed to the offset's bank, its RDBUFF follow-up, the APACC scan
/// at the offset's word index, and the RDBUFF read that collects the
/// result.
pub open spec fn memap_block(route: u8, address: MemapAddress, data: u32, read: bool) -> Seq<
    DapOp,
> {
    seq![
        (DapOp::Dp {
            data: spec_select_word(route, spec_memap_bank(address), 0),
            a: 2,
            rnw: false,
        }),
        (DapOp::Dp { data: 0, a: 3, rnw: true }),
        (DapOp::Ap { data, a: spec_memap_word(address), rnw: read }),
        (DapOp::Dp { data: 0, a: 3, rnw: true }),
    ]
}

/// The accesses a 64-bit TAR write issues: write the high then low
/// halves, then read both halves back so a caller can confirm the
/// address that was latched.
pub open spec fn tar_u64_write_ops(route: u8, address: u64) -> Seq<DapOp> {
    memap_block(route, MemapAddress::TARhi, (address >> 32) as u32, false) + memap_block(
        route,
        MemapAddress::TARlo,
        (address & 0xffff_ffff) as u32,
        false,
    ) + memap_block(route, MemapAddress::TARhi, (0u64 >> 32) as u32, true) + memap_block(
        route,
        MemapAddress::TARlo,
        (0u64 & 0xffff_ffff) as u32,
        true,
    )
}

/// MEM-AP access over a DebugPort: every register access decomposes
/// its byte offset into (APBANKSEL, word index), routes SELECT, and
/// issues the APACC scan with its RDBUFF follow-up, whose answer is
/// what the access returns.
pub trait MemoryAccessPort: DapInterface + DebugPort {
    /// One MEM-AP register access: issues exactly the four scans of
    /// `memap_block` for this offset, routed at this port's AP index.
    fn memap(&mut self, address: MemapAddress, data: u32, read: bool) -> (r: (DapAck, u32))
        requires
            old(self).dap_inv(),
        ensures
            final(self).dap_inv(),
            final(self).dap_route() == old(self).dap_route(),
            final(self).dap_ops() == old(self).dap_ops() + memap_block(
                old(self).dap_route(),
                address,
                data,
                read,
            ),
            resps_extended(old(self).dap_resps(), final(self).dap_resps(), 4),
            r.0 == spec_dap_ack(final(self).dap_resps().last().0),
            r.1 == final(self).dap_resps().last().1,
    ;

    /// Read the AP identification register.
    fn memap_idr_read(&mut self) -> (r: (DapAck, u32))
        requires
            old(self).dap_inv(),
        ensures
            final(self).dap_inv(),
            final(self).dap_route() == old(self).dap_route(),
            final(self).dap_ops() == old(self).dap_ops() + memap_block(
                old(self).dap_route(),
                MemapAddress::IDR,
                0,
                true,
            ),
            resps_extended(old(self).dap_resps(), final(self).dap_resps(), 4),
            r.0 == spec_dap_ack(final(self).dap_resps().last().0),
            r.1 == final(self).dap_resps().last().1,
    {
        self.memap(MemapAddress::IDR, 0, true)
    }

    /// Read the Control/Status Word.
    fn memap_csw_read(&mut self) -> (r: (DapAck, CSW))
        requires
            old(self).dap_inv(),
        ensures
            final(self).dap_inv(),
            final(self).dap_route() == old(self).dap_route(),
            final(self).dap_ops() == old(self).dap_ops() + memap_block(
                old(self).dap_route(),
                MemapAddress::CSW,
                0,
                true,
            ),
            resps_extended(old(self).dap_resps(), final(self).dap_resps(), 4),
            r.0 == spec_dap_ack(final(self).dap_resps().last().0),
            r.1 == (CSW { 0: final(self).dap_resps().last().1 }),
    {
        let (ack, result) = self.memap(MemapAddress::CSW, 0, true);
        (ack, CSW(result))
    }

    /// Write the Control/Status Word.
    fn memap_csw_write(&mut self, csw: CSW) -> (r: DapAck)
        requires
            old(self).dap_inv(),
        ensures
            final(self).dap_inv(),
            final(self).dap_route() == old(self).dap_route(),
            final(self).dap_ops() == old(self).dap_ops() + memap_block(
                old(self).dap_route(),
                MemapAddress::CSW,
                csw.0,
                false,
            ),
            resps_extended(old(self).dap_resps(), final(self).dap_resps(), 4),
            r == spec_dap_ack(final(self).dap_resps().last().0),
    {
        let (ack, _) = self.memap(MemapAddress::CSW, csw.0, false);
        ack
    }

    /// Read the CFG register.
    fn memap_cfg_read(&mut self) -> (r: (DapAck, u32))
        requires
            old(self).dap_inv(),
        ensures
            final(self).dap_inv(),
            final(self).dap_route() == old(self).dap_route(),
            final(self).dap_ops() == old(self).dap_ops() + memap_block(
                old(self).dap_route(),
                MemapAddress::CFG,
                0,
                true,
            ),
            resps_extended(old(self).dap_resps(), final(self).dap_resps(), 4),
            r.0 == spec_dap_ack(final(self).dap_resps().last().0),
            r.1 == final(self).dap_resps().last().1,
    {
        self.memap(MemapAddress::CFG, 0, true)
    }

    /// Access the 64-bit Transfer Address Register, high half then
    /// low half.
    fn memap_tar_u64(&mut self, address: u64, read: bool) -> (r: (DapAck, u64))
        requires
            old(self).dap_inv(),
        ensures
            final(self).dap_inv(),
            final(self).dap_route() == old(self).dap_route(),
            final(self).dap_ops() == old(self).dap_ops() + memap_block(
                old(self).dap_route(),
                MemapAddress::TARhi,
                ((address >> 32) as u32),
                read,
            ) + memap_block(
                old(self).dap_route(),
                MemapAddress::TARlo,
                ((address & 0xffff_ffff) as u32),
                read,
            ),
            resps_extended(old(self).dap_resps(), final(self).dap_resps(), 8),
            r.0 == spec_dap_ack(final(self).dap_resps().last().0),
            r.1 == (((final(self).dap_resps()[old(self).dap_resps().len() as int + 3].1 as u64) << 32)
                | (final(self).dap_resps().last().1 as u64)),
    {
        let address_low = (address & 0xffff_ffff) as u32;
        let address_high = (address >> 32) as u32;
        let ghost r0 = self.dap_resps();
        let (_ack, tmp) = self.memap(MemapAddress::TARhi, address_high, read);
        let ghost r1 = self.dap_resps();
        let result: u64 = (tmp as u64) << 32;
        let (ack, tmp) = self.memap(MemapAddress::TARlo, address_low, read);
        proof {
            lemma_resps_chain(r0, r1, final(self).dap_resps(), 4, 4);
            assert(final(self).dap_resps()[r0.len() as int + 3] == r1.last());
        }
        let result: u64 = result | (tmp as u64);
        (ack, result)
    }

    /// Read TAR back.
    fn memap_tar_u64_read(&mut self) -> (r: (DapAck, u64))
        requires
            old(self).dap_inv(),
        ensures
            final(self).dap_inv(),
            final(self).dap_route() == old(self).dap_route(),
            final(self).dap_ops() == old(self).dap_ops() + memap_block(
                old(self).dap_route(),
                MemapAddress::TARhi,
                ((0u64 >> 32) as u32),
                true,
            ) + memap_block(
                old(self).dap_route(),
                MemapAddress::TARlo,
                ((0u64 & 0xffff_ffff) as u32),
                true,
            ),
            resps_extended(old(self).dap_resps(), final(self).dap_resps(), 8),
            r.0 == spec_dap_ack(final(self).dap_resps().last().0),
            r.1 == (((final(self).dap_resps()[old(self).dap_resps().len() as int + 3].1 as u64)
                << 32) | (final(self).dap_resps().last().1 as u64)),
    {
        self.memap_tar_u64(0, true)
    }

    /// Write TAR, then read it back to confirm the address that
    /// was latched.
    fn memap_tar_u64_write(&mut self, address: u64) -> (r: DapAck)
        requires
            old(self).dap_inv(),
        ensures
            final(self).dap_inv(),
            final(self).dap_route() == old(self).dap_route(),
            final(self).dap_ops() == old(self).dap_ops() + tar_u64_write_ops(
                old(self).dap_route(),
                address,
            ),
            resps_extended(old(self).dap_resps(), final(self).dap_resps(), 16),
            r == spec_dap_ack(
                final(self).dap_resps()[old(self).dap_resps().len() as int + 7].0,
            ),
    {
        let ghost r0 = self.dap_resps();
        let (ack, _) = self.memap_tar_u64(address, false);
        let ghost r1 = self.dap_resps();
        let (_, _address) = self.memap_tar_u64_read();
        proof {
            assert(final(self).dap_ops() =~= old(self).dap_ops() + tar_u64_write_ops(
                old(self).dap_route(),
                address,
            ));
            lemma_resps_chain(r0, r1, final(self).dap_resps(), 8, 8);
            assert(final(self).dap_resps()[r0.len() as int + 7] == r1.last());
        }
        ack
    }

    /// Access the low 32 bits of TAR.
    fn memap_tar_u32(&mut self, address: u32, read: bool) -> (r: (DapAck, u32))
        requires
            old(self).dap_inv(),
        ensures
            final(self).dap_inv(),
            final(self).dap_route() == old(self).dap_route(),
            final(self).dap_ops() == old(self).dap_ops() + memap_block(
                old(self).dap_route(),
                MemapAddress::TARlo,
                address,
                read,
            ),
            resps_extended(old(self).dap_resps(), final(self).dap_resps(), 4),
            r.0 == spec_dap_ack(final(self).dap_resps().last().0),
            r.1 == final(self).dap_resps().last().1,
    {
        self.memap(MemapAddress::TARlo, address, read)
    }

    /// Read the low 32 bits of TAR.
    fn memap_tar_u32_read(&mut self) -> (r: (DapAck, u32))
        requires
            old(self).dap_inv(),
        ensures
            final(self).dap_inv(),
            final(self).dap_route() == old(self).dap_route(),
            final(self).dap_ops() == old(self).dap_ops() + memap_block(
                old(self).dap_route(),
                MemapAddress::TARlo,
                0,
                true,
            ),
            resps_extended(old(self).dap_resps(), final(self).dap_resps(), 4),
            r.0 == spec_dap_ack(final(self).dap_resps().last().0),
            r.1 == final(self).dap_resps().last().1,
    {
        self.memap_tar_u32(0, true)
    }

    /// Write the low 32 bits of TAR.
    fn memap_tar_u32_write(&mut self, address: u32) -> (r: DapAck)
        requires
            old(self).dap_inv(),
        ensures
            final(self).dap_inv(),
            final(self).dap_route() == old(self).dap_route(),
            final(self).dap_ops() == old(self).dap_ops() + memap_block(
                old(self).dap_route(),
                MemapAddress::TARlo,
                address,
                false,
            ),
            resps_extended(old(self).dap_resps(), final(self).dap_resps(), 4),
            r == spec_dap_ack(final(self).dap_resps().last().0),
    {
        let (ack, _) = self.memap_tar_u32(address, false);
        ack
    }

    /// Access Banked Data register 0 (the word at TAR[31:4]:0x0).
    fn memap_bd0(&mut self, data: u32, read: bool) -> (r: (DapAck, u32))
        requires
            old(self).dap_inv(),
        ensures
            final(self).dap_inv(),
            final(self).dap_route() == old(self).dap_route(),
            final(self).dap_ops() == old(self).dap_ops() + memap_block(
                old(self).dap_route(),
                MemapAddress::BD0,
                data,
                read,
            ),
            resps_extended(old(self).dap_resps(), final(self).dap_resps(), 4),
            r.0 == spec_dap_ack(final(self).dap_resps().last().0),
            r.1 == final(self).dap_resps().last().1,
    {
        self.memap(MemapAddress::BD0, data, read)
    }

    /// Read BD0.
    fn memap_bd0_read(&mut self) -> (r: (DapAck, u32))
        requires
            old(self).dap_inv(),
        ensures
            final(self).dap_inv(),
            final(self).dap_route() == old(self).dap_route(),
            final(self).dap_ops() == old(self).dap_ops() + memap_block(
                old(self).dap_route(),
                MemapAddress::BD0,
                0,
                true,
            ),
            resps_extended(old(self).dap_resps(), final(self).dap_resps(), 4),
            r.0 == spec_dap_ack(final(self).dap_resps().last().0),
            r.1 == final(self).dap_resps().last().1,
    {
        self.memap_bd0(0, true)
    }

    /// Write BD0.
    fn memap_bd0_write(&mut self, data: u32) -> (r: DapAck)
        requires
            old(self).dap_inv(),
        ensures
            final(self).dap_inv(),
            final(self).dap_route() == old(self).dap_route(),
            final(self).dap_ops() == old(self).dap_ops() + memap_block(
                old(self).dap_route(),
                MemapAddress::BD0,
                data,
                false,
            ),
            resps_extended(old(self).dap_resps(), final(self).dap_resps(), 4),
            r == spec_dap_ack(final(self).dap_resps().last().0),
    {
        let (ack, _) = self.memap_bd0(data, false);
        ack
    }

    /// Access Banked Data register 1.
    fn memap_bd1(&mut self, data: u32, read: bool) -> (r: (DapAck, u32))
        requires
            old(self).dap_inv(),
        ensures
            final(self).dap_inv(),
            final(self).dap_route() == old(self).dap_route(),
            final(self).dap_ops() == old(self).dap_ops() + memap_block(
                old(self).dap_route(),
                MemapAddress::BD1,
                data,
                read,
            ),
            resps_extended(old(self).dap_resps(), final(self).dap_resps(), 4),
            r.0 == spec_dap_ack(final(self).dap_resps().last().0),
            r.1 == final(self).dap_resps().last().1,
    {
        self.memap(MemapAddress::BD1, data, read)
    }

    /// Read BD1.
    fn memap_bd1_read(&mut self) -> (r: (DapAck, u32))
        requires
            old(self).dap_inv(),
        ensures
            final(self).dap_inv(),
            final(self).dap_route() == old(self).dap_route(),
            final(self).dap_ops() == old(self).dap_ops() + memap_block(
                old(self).dap_route(),
                MemapAddress::BD1,
                0,
                true,
            ),
            resps_extended(old(self).dap_resps(), final(self).dap_resps(), 4),
            r.0 == spec_dap_ack(final(self).dap_resps().last().0),
            r.1 == final(self).dap_resps().last().1,
    {
        self.memap_bd1(0, true)
    }

    /// Write BD1.
    fn memap_bd1_write(&mut self, data: u32) -> (r: DapAck)
        requires
            old(self).dap_inv(),
        ensures
            final(self).dap_inv(),
            final(self).dap_route() == old(self).dap_route(),
            final(self).dap_ops() == old(self).dap_ops() + memap_block(
                old(self).dap_route(),
                MemapAddress::BD1,
                data,
                false,
            ),
            resps_extended(old(self).dap_resps(), final(self).dap_resps(), 4),
            r == spec_dap_ack(final(self).dap_resps().last().0),
    {
        let (ack, _) = self.memap_bd1(data, false);
        ack
    }

    /// Access Banked Data register 2.
    fn memap_bd2(&mut self, data: u32, read: bool) -> (r: (DapAck, u32))
        requires
            old(self).dap_inv(),
        ensures
            final(self).dap_inv(),
            final(self).dap_route() == old(self).dap_route(),
            final(self).dap_ops() == old(self).dap_ops() + memap_block(
                old(self).dap_route(),
                MemapAddress::BD2,
                data,
                read,
            ),
            resps_extended(old(self).dap_resps(), final(self).dap_resps(), 4),
            r.0 == spec_dap_ack(final(self).dap_resps().last().0),
            r.1 == final(self).dap_resps().last().1,
    {
        self.memap(MemapAddress::BD2, data, read)
    }

    /// Read BD2.
    fn memap_bd2_read(&mut self) -> (r: (DapAck, u32))
        requires
            old(self).dap_inv(),
        ensures
            final(self).dap_inv(),
            final(self).dap_route() == old(self).dap_route(),
            final(self).dap_ops() == old(self).dap_ops() + memap_block(
                old(self).dap_route(),
                MemapAddress::BD2,
                0,
                true,
            ),
            resps_extended(old(self).dap_resps(), final(self).dap_resps(), 4),
            r.0 == spec_dap_ack(final(self).dap_resps().last().0),
            r.1 == final(self).dap_resps().last().1,
    {
        self.memap_bd2(0, true)
    }

    /// Write BD2.
    fn memap_bd2_write(&mut self, data: u32) -> (r: DapAck)
        requires
            old(self).dap_inv(),
        ensures
            final(self).dap_inv(),
            final(self).dap_route() == old(self).dap_route(),
            final(self).dap_ops() == old(self).dap_ops() + memap_block(
                old(self).dap_route(),
                MemapAddress::BD2,
                data,
                false,
            ),
            resps_extended(old(self).dap_resps(), final(self).dap_resps(), 4),
            r == spec_dap_ack(final(self).dap_resps().last().0),
    {
        let (ack, _) = self.memap_bd2(data, false);
        ack
    }

    /// Access Banked Data register 3.
    fn memap_bd3(&mut self, data: u32, read: bool) -> (r: (DapAck, u32))
        requires
            old(self).dap_inv(),
        ensures
            final(self).dap_inv(),
            final(self).dap_route() == old(self).dap_route(),
            final(self).dap_ops() == old(self).dap_ops() + memap_block(
                old(self).dap_route(),
                MemapAddress::BD3,
                data,
                read,
            ),
            resps_extended(old(self).dap_resps(), final(self).dap_resps(), 4),
            r.0 == spec_dap_ack(final(self).dap_resps().last().0),
            r.1 == final(self).dap_resps().last().1,
    {
        self.memap(MemapAddress::BD3, data, read)
    }

    /// Read BD3.
    fn memap_bd3_read(&mut self) -> (r: (DapAck, u32))
        requires
            old(self).dap_inv(),
        ensures
            final(self).dap_inv(),
            final(self).dap_route() == old(self).dap_route(),
            final(self).dap_ops() == old(self).dap_ops() + memap_block(
                old(self).dap_route(),
                MemapAddress::BD3,
                0,
                true,
            ),
            resps_extended(old(self).dap_resps(), final(self).dap_resps(), 4),
            r.0 == spec_dap_ack(final(self).dap_resps().last().0),
            r.1 == final(self).dap_resps().last().1,
    {
        self.memap_bd3(0, true)
    }

    /// Write BD3.
    fn memap_bd3_write(&mut self, data: u32) -> (r: DapAck)
        requires
            old(self).dap_inv(),
        ensures
            final(self).dap_inv(),
            final(self).dap_route() == old(self).dap_route(),
            final(self).dap_ops() == old(self).dap_ops() + memap_block(
                old(self).dap_route(),
                MemapAddress::BD3,
                data,
                false,
            ),
            resps_extended(old(self).dap_resps(), final(self).dap_resps(), 4),
            r == spec_dap_ack(final(self).dap_resps().last().0),
    {
        let (ack, _) = self.memap_bd3(data, false);
        ack
    }

    /// Read the low half of the debug BASE address.
    fn memap_base_u32_read(&mut self) -> (r: (DapAck, u32))
        requires
            old(self).dap_inv(),
        ensures
            final(self).dap_inv(),
            final(self).dap_route() == old(self).dap_route(),
            final(self).dap_ops() == old(self).dap_ops() + memap_block(
                old(self).dap_route(),
                MemapAddress::BASElo,
                0,
                true,
            ),
            resps_extended(old(self).dap_resps(), final(self).dap_resps(), 4),
            r.0 == spec_dap_ack(final(self).dap_resps().last().0),
            r.1 == final(self).dap_resps().last().1,
    {
        self.memap(MemapAddress::BASElo, 0, true)
    }

    /// Read the full 64-bit debug BASE address, low half then high.
    fn memap_base_u64_read(&mut self) -> (r: (DapAck, u64))
        requires
            old(self).dap_inv(),
        ensures
            final(self).dap_inv(),
            final(self).dap_route() == old(self).dap_route(),
            final(self).dap_ops() == old(self).dap_ops() + memap_block(
                old(self).dap_route(),
                MemapAddress::BASElo,
                0,
                true,
            ) + memap_block(old(self).dap_route(), MemapAddress::BASEhi, 0, true),
            resps_extended(old(self).dap_resps(), final(self).dap_resps(), 8),
            r.0 == spec_dap_ack(final(self).dap_resps().last().0),
            r.1 == (((final(self).dap_resps().last().1 as u64) << 32) | (final(self).dap_resps()[
                old(self).dap_resps().len() as int + 3
            ].1 as u64)),
    {
        let ghost r0 = self.dap_resps();
        let (_ack, lo) = self.memap(MemapAddress::BASElo, 0, true);
        let ghost r1 = self.dap_resps();
        let (ack, hi) = self.memap(MemapAddress::BASEhi, 0, true);
        proof {
            lemma_resps_chain(r0, r1, final(self).dap_resps(), 4, 4);
            assert(final(self).dap_resps()[r0.len() as int + 3] == r1.last());
        }
        let address: u64 = ((hi as u64) << 32) | (lo as u64);
        (ack, address)
    }
}

/// A block of `n` repetitions of the same access sequence, as the
/// power-up poll loop issues.
pub open spec fn repeat_ops(b: Seq<DapOp>, n: nat) -> Seq<DapOp>
    decreases n,
{
    if n == 0 {
        seq![]
    } else {
        repeat_ops(b, (n - 1) as nat) + b
    }
}

/// The accesses `DAP::init` issues: SELECT cleared, CTRL/STAT
/// observed, power-up requested with the sticky error cleared then
/// re-asserted cleanly, CTRL/STAT polled `polls` times for the
/// acknowledgements, and CSW read, rewritten as `csw` (DbgSwEnable
/// set) and read back.
pub open spec fn dap_init_ops(route: u8, polls: nat, csw: u32) -> Seq<DapOp> {
    dp_acc_block(spec_select_word(0, 0, 0), 2, false) + dp_acc_block(0, 1, true) + dp_acc_block(
        0x5000_0020,
        1,
        false,
    ) + dp_acc_block(0x5000_0000, 1, false) + repeat_ops(dp_acc_block(0, 1, true), polls)
        + memap_block(route, MemapAddress::CSW, 0, true) + memap_block(
        route,
        MemapAddress::CSW,
        csw,
        false,
    ) + memap_block(route, MemapAddress::CSW, 0, true)
}

/// How many CTRL/STAT polls `init` makes before giving up waiting
/// for the power-up acknowledgements: a bounded retry in place of
/// an open-ended wait on a device that may never answer.
pub const POWERUP_POLL_MAX: u32 = 1000000;

/// A Debug Access Port bound to one AP index: owns its DPACC/APACC
/// transport and performs the power-up and CSW-enable sequence at
/// construction.
pub struct DAP<T> {
    pub dp: T,
    pub apnum: u8,
}

impl<T: DapInterface> DAP<T> {
    /// Wrap a transport at AP index 0 and run the init sequence.
    pub fn new(dp: T) -> (r: DAP<T>)
        requires
            dp.dap_inv(),
        ensures
            r.dp.dap_inv(),
            r.apnum == 0,
            exists|polls: nat|
                1 <= polls <= POWERUP_POLL_MAX && resps_extended(
                    dp.dap_resps(),
                    r.dp.dap_resps(),
                    ((20 + 2 * polls) as nat),
                ) && r.dp.dap_ops() == dp.dap_ops() + #[trigger] dap_init_ops(
                    0,
                    polls,
                    r.dp.dap_resps()[r.dp.dap_resps().len() - 9].1 | 0x8000_0000,
                ),
    {
        let mut dap = DAP { dp: dp, apnum: 0 };
        dap.init();
        dap
    }

    /// The init sequence: clear SELECT, observe CTRL/STAT, request
    /// debug and system power-up (clearing a latched sticky error on
    /// the way), poll until both acknowledgements are seen, then set
    /// DbgSwEnable in CSW. The CSW word written is the word the CSW
    /// read answered, with DbgSwEnable set: in the contract that
    /// read-back is the response nine entries from the end of the
    /// history, since the CSW write and the final read-back answer
    /// the last eight.
    pub fn init(&mut self)
        requires
            old(self).dp.dap_inv(),
        ensures
            final(self).dp.dap_inv(),
            final(self).apnum == old(self).apnum,
            exists|polls: nat|
                1 <= polls <= POWERUP_POLL_MAX && resps_extended(
                    old(self).dp.dap_resps(),
                    final(self).dp.dap_resps(),
                    ((20 + 2 * polls) as nat),
                ) && final(self).dp.dap_ops() == old(self).dp.dap_ops() + #[trigger] dap_init_ops(
                    old(self).apnum,
                    polls,
                    final(self).dp.dap_resps()[final(self).dp.dap_resps().len() - 9].1
                        | 0x8000_0000,
                ),
    {
        let ghost base = self.dp.dap_ops();
        let ghost base_resps = self.dp.dap_resps();
        let ghost route = self.apnum;
        self.dp_select_write(0, 0, 0);
        let ghost g1 = self.dp.dap_resps();
        let (_ack, _ctrl) = self.dp_ctrlstat_read();
        let ghost g2 = self.dp.dap_resps();

        let mut ctrl = CtrlStatus(0);
        ctrl.set_CDBGPWRUPREQ(1);
        ctrl.set_CSYSPWRUPREQ(1);
        ctrl.set_STICKYERR(1);
        proof {
            assert((((((0u32 & !(1u32 << 28)) | ((1u32 & 1) << 28)) & !(1u32 << 30)) | ((1u32 & 1)
                << 30)) & !(1u32 << 5)) | ((1u32 & 1) << 5) == 0x5000_0020u32) by (bit_vector);
        }
        self.dp_ctrlstat_write(ctrl);
        let ghost g3 = self.dp.dap_resps();

        let mut ctrl = CtrlStatus(0);
        ctrl.set_CDBGPWRUPREQ(1);
        ctrl.set_CSYSPWRUPREQ(1);
        ctrl.set_STICKYERR(0);
        proof {
            assert((((((0u32 & !(1u32 << 28)) | ((1u32 & 1) << 28)) & !(1u32 << 30)) | ((1u32 & 1)
                << 30)) & !(1u32 << 5)) | ((0u32 & 1) << 5) == 0x5000_0000u32) by (bit_vector);
        }
        self.dp_ctrlstat_write(ctrl);
        let ghost g4 = self.dp.dap_resps();
        proof {
            lemma_resps_chain(base_resps, g1, g2, 2, 2);
            lemma_resps_chain(base_resps, g2, g3, 4, 2);
            lemma_resps_chain(base_resps, g3, g4, 6, 2);
        }

        let ghost prefix = base + dp_acc_block(spec_select_word(0, 0, 0), 2, false) + dp_acc_block(
            0,
            1,
            true,
        ) + dp_acc_block(0x5000_0020, 1, false) + dp_acc_block(0x5000_0000, 1, false);
        let mut attempts: u32 = 0;
        proof {
            assert(g4.take(g4.len() as int) =~= g4);
        }
        loop
            invariant_except_break
                attempts < POWERUP_POLL_MAX,
            invariant
                self.dp.dap_inv(),
                self.apnum == route,
                self.dp.dap_ops() == prefix + repeat_ops(dp_acc_block(0, 1, true), attempts as nat),
                resps_extended(g4, self.dp.dap_resps(), ((2 * attempts) as nat)),
            ensures
                self.dp.dap_inv(),
                self.apnum == route,
                1 <= attempts <= POWERUP_POLL_MAX,
                self.dp.dap_ops() == prefix + repeat_ops(dp_acc_block(0, 1, true), attempts as nat),
                resps_extended(g4, self.dp.dap_resps(), ((2 * attempts) as nat)),
            decreases POWERUP_POLL_MAX - attempts,
        {
            let ghost gb = self.dp.dap_resps();
            let (_ack, ctrl) = self.dp_ctrlstat_read();
            attempts = attempts + 1;
            proof {
                assert(repeat_ops(dp_acc_block(0, 1, true), attempts as nat) == repeat_ops(
                    dp_acc_block(0, 1, true),
                    (attempts - 1) as nat,
                ) + dp_acc_block(0, 1, true));
                assert(self.dp.dap_ops() =~= prefix + repeat_ops(
                    dp_acc_block(0, 1, true),
                    attempts as nat,
                ));
                lemma_resps_chain(g4, gb, self.dp.dap_resps(), ((2 * (attempts - 1)) as nat), 2);
            }
            if (ctrl.CDBGPWRUPACK() == 1 && ctrl.CSYSPWRUPACK() == 1) || attempts
                >= POWERUP_POLL_MAX {
                break ;
            }
        }
        let ghost r_poll = self.dp.dap_resps();

        let (_ack, mut data) = self.memap_csw_read();
        let ghost r_read = self.dp.dap_resps();
        let ghost csw0 = data.0;
        proof {
            assert(csw0 == r_read.last().1);
        }
        data.set_DbgSwEnable(1);
        proof {
            let v = csw0;
            assert((v & !(1u32 << 31)) | ((1u32 & 1) << 31) == (v | 0x8000_0000u32))
                by (bit_vector);
        }
        let _ack = self.memap_csw_write(data);
        let ghost r_write = self.dp.dap_resps();
        let (_ack, _data) = self.memap_csw_read();
        proof {
            let fin = final(self).dp.dap_resps();
            lemma_resps_chain(base_resps, g4, r_poll, 8, ((2 * attempts) as nat));
            lemma_resps_chain(base_resps, r_poll, r_read, ((8 + 2 * attempts) as nat), 4);
            lemma_resps_chain(r_read, r_write, fin, 4, 4);
            lemma_resps_chain(base_resps, r_read, fin, ((12 + 2 * attempts) as nat), 8);
            assert(fin[fin.len() - 9] == r_read.last());
            assert(final(self).dp.dap_ops() =~= old(self).dp.dap_ops() + dap_init_ops(
                route,
                attempts as nat,
                csw0 | 0x8000_0000u32,
            ));
            assert(fin[fin.len() - 9].1 | 0x8000_0000 == csw0 | 0x8000_0000u32);
        }
    }
}

impl<T: DapInterface> DapInterface for DAP<T> {
    open spec fn dap_inv(&self) -> bool {
        self.dp.dap_inv()
    }

    open spec fn dap_ops(&self) -> Seq<DapOp> {
        self.dp.dap_ops()
    }

    open spec fn dap_resps(&self) -> Seq<(u8, u32)> {
        self.dp.dap_resps()
    }

    open spec fn dap_route(&self) -> u8 {
        self.apnum
    }

    fn apacc(&mut self, data: u32, a: u8, rnw: bool) -> (r: (u8, u32)) {
        self.dp.apacc(data, a, rnw)
    }

    fn dpacc(&mut self, data: u32, a: u8, rnw: bool) -> (r: (u8, u32)) {
        self.dp.dpacc(data, a, rnw)
    }
}

impl<T: DapInterface> DebugPort for DAP<T> {
}

impl<T: DapInterface> MemoryAccessPort for DAP<T> {
    fn memap(&mut self, address: MemapAddress, data: u32, read: bool) -> (r: (DapAck, u32)) {
        let address_u8 = address.to_u8();
        let apbanksel = (address_u8 & 0xf0) >> 4;
        let word = (address_u8 & 0x0f) >> 2;
        proof {
            let x = address_u8;
            assert(((x & 0x0f) >> 2) < 4) by (bit_vector);
        }
        let apnum = self.apnum;
        self.dp_select_write(apnum, apbanksel, 0);
        self.dp.apacc(data, word, read);
        let r = self.dp_rdbuff_read();
        proof {
            assert(final(self).dap_ops() =~= old(self).dap_ops() + memap_block(
                old(self).dap_route(),
                address,
                data,
                read,
            ));
            assert(final(self).dap_resps().take(old(self).dap_resps().len() as int)
                =~= old(self).dap_resps());
        }
        r
    }
}

} // verus!

