//! Cycle-stepped core of an 8-bit home console: the processor, the picture
//! unit, and the bus that binds them.
//!
//! * [`memory`]: the interface of a device on a bus, and the processor's
//!   side of the bus.
//! * [`ppu`], [`scroll`], [`render`], [`palette`], [`frame`]: the picture
//!   unit, from its ports to the pixels it draws.
//! * [`cpu`], [`addressing`], [`opcodes`], [`execute`], [`stack`]: the
//!   processor.
//! * [`console`]: the machine as a whole, stepped in lockstep.
//! * [`bits`]: facts about bit layouts that the rest cites.
//!
//! Whatever a program can reach through the bus is a total function on the
//! state it works on. Its contract names the state it leaves with a spec
//! function, so that laws about sequences of operations are proved once,
//! over those functions.

pub mod addressing;
pub mod bits;
pub mod console;
pub mod cpu;
pub mod execute;
pub mod frame;
pub mod memory;
pub mod opcodes;
pub mod palette;
pub mod ppu;
pub mod render;
pub mod scroll;
pub mod stack;
