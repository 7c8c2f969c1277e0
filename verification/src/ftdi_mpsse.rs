//! The command-stream arithmetic of the FTDI MPSSE transport: the
//! byte sequences that clock TMS and TDI bits, and the unpacking of
//! sampled TDO bytes back into bits. The USB transfers and mode
//! setup around these are outside the library.

use crate::bits::{bits_val, min_nat, window_val};
use vstd::prelude::*;

verus! {

/// One JTAG signal's place on the FTDI GPIO word, with the level it
/// is driven to at start-up.
pub struct FtdiJtagPin {
    pub position: u8,
    pub input: bool,
    pub initial_value: bool,
}

impl FtdiJtagPin {
    /// The GPIO bit mask of this pin.
    pub fn to_bit(&self) -> (r: u8)
        requires
            self.position < 8,
        ensures
            r == (1u8 << self.position),
    {
        1u8 << self.position
    }
}

/// The "clock data to TMS pin, no read, out on falling edge" opcode.
pub const MPSSE_TMS_OPCODE: u8 = 0x4B;

/// The "clock data bits in and out, LSB first, in rising out
/// falling" opcode.
pub const MPSSE_DATA_OPCODE: u8 = 0x3B;

/// The command stream that clocks a TMS sequence: chunks of at most
/// 7 bits, each as (opcode, length-1, bits packed LSB-first).
pub open spec fn mpsse_tms_commands(tms: Seq<bool>) -> Seq<u8>
    decreases tms.len(),
{
    if tms.len() == 0 {
        seq![]
    } else {
        let k = min_nat(tms.len(), 7);
        seq![MPSSE_TMS_OPCODE, (k - 1) as u8, (bits_val(tms.take(k as int)) as u8)]
            + mpsse_tms_commands(tms.skip(k as int))
    }
}

/// Build the TMS command stream.
pub fn mpsse_write_tms_commands(tms: &Vec<bool>) -> (r: Vec<u8>)
    ensures
        r@ == mpsse_tms_commands(tms@),
{
    let mut commands: Vec<u8> = Vec::new();
    let n = tms.len();
    let mut i: usize = 0;
    proof {
        assert(tms@.skip(0) =~= tms@);
        assert(mpsse_tms_commands(tms@) =~= commands@ + mpsse_tms_commands(tms@.skip(0)));
    }
    while i < n
        invariant
            i <= n,
            n == tms@.len(),
            mpsse_tms_commands(tms@) == commands@ + mpsse_tms_commands(tms@.skip(i as int)),
        decreases n - i,
    {
        let rest = n - i;
        let k = if rest < 7 {
            rest
        } else {
            7
        };
        let byte1 = window_val(tms, i, k);
        proof {
            let tail = tms@.skip(i as int);
            assert(tail.take(k as int) =~= tms@.subrange(i as int, (i + k) as int));
            assert(tail.skip(k as int) =~= tms@.skip((i + k) as int));
            assert(mpsse_tms_commands(tail) == seq![
                MPSSE_TMS_OPCODE,
                (k - 1) as u8,
                (bits_val(tail.take(k as int)) as u8),
            ] + mpsse_tms_commands(tail.skip(k as int)));
        }
        commands.push(MPSSE_TMS_OPCODE);
        commands.push((k - 1) as u8);
        commands.push(byte1 as u8);
        proof {
            assert(mpsse_tms_commands(tms@) =~= commands@ + mpsse_tms_commands(
                tms@.skip((i + k) as int),
            ));
        }
        i = i + k;
    }
    proof {
        assert(tms@.skip(n as int).len() == 0);
        assert(mpsse_tms_commands(tms@) =~= commands@);
    }
    commands
}

/// The command stream that clocks TDI bits: chunks of at most 8
/// bits, each as (opcode, length-1, bits packed LSB-first).
pub open spec fn mpsse_data_chunks(tdi: Seq<bool>) -> Seq<u8>
    decreases tdi.len(),
{
    if tdi.len() == 0 {
        seq![]
    } else {
        let k = min_nat(tdi.len(), 8);
        seq![MPSSE_DATA_OPCODE, (k - 1) as u8, (bits_val(tdi.take(k as int)) as u8)]
            + mpsse_data_chunks(tdi.skip(k as int))
    }
}

/// The command stream for a full data shift: every bit but the last
/// through the data opcode; with `exit`, the last bit rides on a
/// one-bit TMS command that raises TMS (ending the shift state) while
/// driving the bit on TDI's image in bit 7.
pub open spec fn mpsse_data_commands(tdi: Seq<bool>, exit: bool) -> Seq<u8> {
    if exit {
        mpsse_data_chunks(tdi.take(tdi.len() - 1)) + seq![
            MPSSE_TMS_OPCODE,
            0u8,
            (if tdi.last() {
                0x83u8
            } else {
                0x03u8
            }),
        ]
    } else {
        mpsse_data_chunks(tdi)
    }
}

/// Build the TDI command stream.
pub fn mpsse_write_data_commands(tdi: &Vec<bool>, exit: bool) -> (r: Vec<u8>)
    requires
        exit ==> tdi@.len() >= 1,
    ensures
        r@ == mpsse_data_commands(tdi@, exit),
{
    let mut commands: Vec<u8> = Vec::new();
    let n = tdi.len();
    let tdi_length = if exit {
        n - 1
    } else {
        n
    };
    let ghost head = tdi@.take(tdi_length as int);
    proof {
        if !exit {
            assert(head =~= tdi@);
        }
    }
    let mut i: usize = 0;
    proof {
        assert(head.skip(0) =~= head);
        assert(mpsse_data_chunks(head) =~= commands@ + mpsse_data_chunks(head.skip(0)));
    }
    while i < tdi_length
        invariant
            i <= tdi_length,
            tdi_length <= n,
            n == tdi@.len(),
            head == tdi@.take(tdi_length as int),
            mpsse_data_chunks(head) == commands@ + mpsse_data_chunks(head.skip(i as int)),
        decreases tdi_length - i,
    {
        let rest = tdi_length - i;
        let k = if rest < 8 {
            rest
        } else {
            8
        };
        let byte1 = window_val(tdi, i, k);
        proof {
            let tail = head.skip(i as int);
            assert(tail.take(k as int) =~= tdi@.subrange(i as int, (i + k) as int));
            assert(tail.skip(k as int) =~= head.skip((i + k) as int));
            assert(mpsse_data_chunks(tail) == seq![
                MPSSE_DATA_OPCODE,
                (k - 1) as u8,
                (bits_val(tail.take(k as int)) as u8),
            ] + mpsse_data_chunks(tail.skip(k as int)));
        }
        commands.push(MPSSE_DATA_OPCODE);
        commands.push((k - 1) as u8);
        commands.push(byte1 as u8);
        proof {
            assert(mpsse_data_chunks(head) =~= commands@ + mpsse_data_chunks(
                head.skip((i + k) as int),
            ));
        }
        i = i + k;
    }
    proof {
        assert(head.skip(tdi_length as int).len() == 0);
        assert(mpsse_data_chunks(head) =~= commands@);
    }
    if exit {
        let last = tdi[n - 1];
        commands.push(MPSSE_TMS_OPCODE);
        commands.push(0);
        commands.push(
            if last {
                0x83
            } else {
                0x03
            },
        );
        proof {
            assert(commands@ =~= mpsse_data_commands(tdi@, exit));
        }
    }
    commands
}

/// Unpack `count` sampled bits out of the response buffer: bit `i`
/// is bit `i % 8` of byte `i / 8`.
pub fn mpsse_unpack_bits(buffer: &Vec<u8>, count: usize) -> (r: Vec<bool>)
    requires
        count <= 8 * buffer@.len(),
    ensures
        r@.len() == count,
        forall|i: int|
            0 <= i < count ==> r@[i] == ((buffer@[i / 8] & (1u8 << ((i % 8) as u8))) != 0),
{
    let mut out: Vec<bool> = Vec::new();
    let total = buffer.len();
    let mut i: usize = 0;
    while i < count
        invariant
            i <= count,
            count <= 8 * total,
            total == buffer@.len(),
            out@.len() == i,
            forall|k: int|
                0 <= k < i ==> out@[k] == ((buffer@[k / 8] & (1u8 << ((k % 8) as u8))) != 0),
        decreases count - i,
    {
        let index = i / 8;
        let position = (i % 8) as u8;
        out.push((buffer[index] & (1u8 << position)) != 0);
        i = i + 1;
    }
    out
}

} // verus!
