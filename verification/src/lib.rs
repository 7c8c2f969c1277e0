//! Host-side JTAG debug stack: a verified model of the IEEE 1149.1 TAP
//! controller, a JTAG core that drives an adapter pin by pin, the ARM
//! JTAG-DP access protocol (DPACC/APACC 35-bit scans, posted reads,
//! SELECT routing, power-up), and banked-data register access to ARMv8
//! external debug components.
//!
//! The adapter behind the stack is abstract: its contract
//! (`interface::JtagInterface`) models it as the trace of pin levels
//! driven so far plus the queue of TDO samples it will return. The
//! simulated adapter (`sim::SimAdapter`) and the simulated JTAG-DP
//! device (`sim_dap::SimDap`) are verified implementations that the
//! end-to-end scenarios run against; a hardware adapter performs USB
//! I/O behind the same contract, using the pin arithmetic of
//! `ftdi_bitbang`.

pub mod arm64;
pub mod bits;
pub mod dap;
pub mod ftdi_bitbang;
pub mod ftdi_mpsse;
pub mod interface;
pub mod jtag;
pub mod jtag_state_machine;
pub mod sim;
pub mod sim_dap;
