//! The pin-level arithmetic of the FTDI synchronous bit-bang
//! transport: mapping JTAG signal flags onto the adapter's byte of
//! GPIO lines and back, and building the two-bytes-per-cycle stream
//! (low phase then high phase of TCK) that the adapter writes out.
//! The USB transfers themselves are outside the library.

use crate::interface::JtagBit;
use vstd::prelude::*;

verus! {

/// One JTAG signal's place on the FTDI GPIO byte.
pub struct FtdiJtagPin {
    pub position: u8,
    pub input: bool,
}

impl FtdiJtagPin {
    /// The GPIO bit mask of this pin.
    pub fn to_bit(&self) -> (r: u8)
        requires
            self.position < 8,
        ensures
            r == (1u8 << self.position),
    {
        1u8 << self.position
    }
}

/// The full seven-signal pin map. TDO and RTCK are inputs, the rest
/// outputs; well-formedness also asks that no two signals share a
/// GPIO bit.
pub struct FtdiJtagPins {
    pub tck: FtdiJtagPin,
    pub tms: FtdiJtagPin,
    pub tdi: FtdiJtagPin,
    pub tdo: FtdiJtagPin,
    pub rtck: FtdiJtagPin,
    pub trst: FtdiJtagPin,
    pub srst: FtdiJtagPin,
}

impl FtdiJtagPins {
    /// Every pin sits in the GPIO byte.
    pub open spec fn positions_in_range(&self) -> bool {
        &&& self.tck.position < 8
        &&& self.tms.position < 8
        &&& self.tdi.position < 8
        &&& self.tdo.position < 8
        &&& self.rtck.position < 8
        &&& self.trst.position < 8
        &&& self.srst.position < 8
    }

    /// The pin map's invariant: positions in range and injective, TDO
    /// and RTCK the only inputs.
    pub open spec fn wf(&self) -> bool {
        &&& self.positions_in_range()
        &&& self.tdo.input
        &&& self.rtck.input
        &&& !self.tck.input
        &&& !self.tms.input
        &&& !self.tdi.input
        &&& !self.trst.input
        &&& !self.srst.input
        &&& self.tck.position != self.tms.position
        &&& self.tck.position != self.tdi.position
        &&& self.tck.position != self.tdo.position
        &&& self.tck.position != self.trst.position
        &&& self.tck.position != self.srst.position
        &&& self.tms.position != self.tdi.position
        &&& self.tms.position != self.tdo.position
        &&& self.tms.position != self.trst.position
        &&& self.tms.position != self.srst.position
        &&& self.tdi.position != self.tdo.position
        &&& self.tdi.position != self.trst.position
        &&& self.tdi.position != self.srst.position
        &&& self.tdo.position != self.trst.position
        &&& self.tdo.position != self.srst.position
        &&& self.trst.position != self.srst.position
    }

    /// The GPIO direction byte the adapter is configured with: every
    /// line driven except the two inputs, TDO and RTCK.
    pub fn direction_mask(&self) -> (r: u8)
        requires
            self.positions_in_range(),
        ensures
            r == !((1u8 << self.tdo.position) | (1u8 << self.rtck.position)),
    {
        !((1u8 << self.tdo.position) | (1u8 << self.rtck.position))
    }

    /// Place one cycle's signal levels onto the GPIO byte (TCK low).
    pub fn pins_to_u8(&self, pins: &JtagBit) -> (r: u8)
        requires
            self.positions_in_range(),
        ensures
            r == spec_pins_to_u8(*self, *pins),
    {
        let data: u8 = (if pins.tms {
            1u8 << self.tms.position
        } else {
            0u8
        }) | (if pins.tck {
            1u8 << self.tck.position
        } else {
            0u8
        }) | (if pins.tdi {
            1u8 << self.tdi.position
        } else {
            0u8
        }) | (if pins.tdo {
            1u8 << self.tdo.position
        } else {
            0u8
        }) | (if pins.trst {
            1u8 << self.trst.position
        } else {
            0u8
        }) | (if pins.srst {
            1u8 << self.srst.position
        } else {
            0u8
        });
        data
    }

    /// Read a sampled GPIO byte back into signal levels.
    pub fn u8_to_pins(&self, v: u8) -> (r: JtagBit)
        requires
            self.positions_in_range(),
        ensures
            r == spec_u8_to_pins(*self, v),
    {
        JtagBit {
            tms: (v & (1u8 << self.tms.position)) != 0,
            tck: (v & (1u8 << self.tck.position)) != 0,
            tdi: (v & (1u8 << self.tdi.position)) != 0,
            tdo: (v & (1u8 << self.tdo.position)) != 0,
            trst: (v & (1u8 << self.trst.position)) != 0,
            srst: (v & (1u8 << self.srst.position)) != 0,
        }
    }
}

/// The GPIO byte driven for one cycle's signal levels.
pub open spec fn spec_pins_to_u8(p: FtdiJtagPins, pins: JtagBit) -> u8 {
    (if pins.tms {
        1u8 << p.tms.position
    } else {
        0u8
    }) | (if pins.tck {
        1u8 << p.tck.position
    } else {
        0u8
    }) | (if pins.tdi {
        1u8 << p.tdi.position
    } else {
        0u8
    }) | (if pins.tdo {
        1u8 << p.tdo.position
    } else {
        0u8
    }) | (if pins.trst {
        1u8 << p.trst.position
    } else {
        0u8
    }) | (if pins.srst {
        1u8 << p.srst.position
    } else {
        0u8
    })
}

/// The signal levels read off a sampled GPIO byte.
pub open spec fn spec_u8_to_pins(p: FtdiJtagPins, v: u8) -> JtagBit {
    JtagBit {
        tms: (v & (1u8 << p.tms.position)) != 0,
        tck: (v & (1u8 << p.tck.position)) != 0,
        tdi: (v & (1u8 << p.tdi.position)) != 0,
        tdo: (v & (1u8 << p.tdo.position)) != 0,
        trst: (v & (1u8 << p.trst.position)) != 0,
        srst: (v & (1u8 << p.srst.position)) != 0,
    }
}

/// With an injective pin map, reading back the byte driven for some
/// signal levels yields those levels: no signal aliases another on
/// the wire.
pub proof fn lemma_pin_roundtrip(p: FtdiJtagPins, pins: JtagBit)
    requires
        p.wf(),
    ensures
        spec_u8_to_pins(p, spec_pins_to_u8(p, pins)) == pins,
{
    let a = p.tms.position;
    let b = p.tck.position;
    let c = p.tdi.position;
    let d = p.tdo.position;
    let e = p.trst.position;
    let f = p.srst.position;
    let tms = pins.tms;
    let tck = pins.tck;
    let tdi = pins.tdi;
    let tdo = pins.tdo;
    let trst = pins.trst;
    let srst = pins.srst;
    let v = spec_pins_to_u8(p, pins);
    assert(v == (if tms {
        1u8 << a
    } else {
        0u8
    }) | (if tck {
        1u8 << b
    } else {
        0u8
    }) | (if tdi {
        1u8 << c
    } else {
        0u8
    }) | (if tdo {
        1u8 << d
    } else {
        0u8
    }) | (if trst {
        1u8 << e
    } else {
        0u8
    }) | (if srst {
        1u8 << f
    } else {
        0u8
    }));
    assert({
        let w = (if tms {
            1u8 << a
        } else {
            0u8
        }) | (if tck {
            1u8 << b
        } else {
            0u8
        }) | (if tdi {
            1u8 << c
        } else {
            0u8
        }) | (if tdo {
            1u8 << d
        } else {
            0u8
        }) | (if trst {
            1u8 << e
        } else {
            0u8
        }) | (if srst {
            1u8 << f
        } else {
            0u8
        });
        (((w & (1u8 << a)) != 0) == tms) && (((w & (1u8 << b)) != 0) == tck) && (((w & (1u8 << c))
            != 0) == tdi) && (((w & (1u8 << d)) != 0) == tdo) && (((w & (1u8 << e)) != 0) == trst)
            && (((w & (1u8 << f)) != 0) == srst)
    }) by (bit_vector)
        requires
            a < 8 && b < 8 && c < 8 && d < 8 && e < 8 && f < 8 && a != b && a != c && a != d && a
                != e && a != f && b != c && b != d && b != e && b != f && c != d && c != e && c != f
                && d != e && d != f && e != f,
    ;
}

/// Build the byte stream the bit-bang adapter writes: two bytes per
/// cycle, the driven levels with TCK low and then the same levels
/// with TCK high, producing one rising edge per cycle.
pub fn bitbang_stream(p: &FtdiJtagPins, data: &Vec<JtagBit>) -> (r: Vec<u8>)
    requires
        p.positions_in_range(),
    ensures
        r@.len() == 2 * data@.len(),
        forall|i: int|
            0 <= i < data@.len() ==> r@[2 * i] == spec_pins_to_u8(*p, data@[i]) && r@[2 * i + 1]
                == (spec_pins_to_u8(*p, data@[i]) | (1u8 << p.tck.position)),
{
    let mut out: Vec<u8> = Vec::new();
    let n = data.len();
    let mut i: usize = 0;
    while i < n
        invariant
            i <= n,
            n == data@.len(),
            p.positions_in_range(),
            out@.len() == 2 * i,
            forall|k: int|
                0 <= k < i ==> out@[2 * k] == spec_pins_to_u8(*p, data@[k]) && out@[2 * k + 1] == (
                spec_pins_to_u8(*p, data@[k]) | (1u8 << p.tck.position)),
        decreases n - i,
    {
        let pin = p.pins_to_u8(&data[i]);
        out.push(pin);
        out.push(pin | p.tck.to_bit());
        i = i + 1;
    }
    out
}

/// Read the sampled levels back out of a bit-bang response buffer:
/// each cycle's sample is the high-phase byte, the second of its
/// pair.
pub fn bitbang_samples(p: &FtdiJtagPins, buffer: &Vec<u8>, count: usize) -> (r: Vec<JtagBit>)
    requires
        p.positions_in_range(),
        2 * count <= buffer@.len(),
    ensures
        r@.len() == count,
        forall|i: int|
            0 <= i < count ==> r@[i] == spec_u8_to_pins(*p, buffer@[2 * i + 1]),
{
    let mut out: Vec<JtagBit> = Vec::new();
    let bl = buffer.len();
    let mut i: usize = 0;
    while i < count
        invariant
            i <= count,
            2 * count <= bl,
            bl == buffer@.len(),
            p.positions_in_range(),
            out@.len() == i,
            forall|k: int| 0 <= k < i ==> out@[k] == spec_u8_to_pins(*p, buffer@[2 * k + 1]),
        decreases count - i,
    {
        let sample = buffer[2 * i + 1];
        out.push(p.u8_to_pins(sample));
        i = i + 1;
    }
    out
}

} // verus!
