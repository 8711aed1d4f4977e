//! The core of a node that reads a thermocouple and reports the temperature to
//! a fixed HTTP endpoint over a wireless link, cycle after cycle.
//!
//! Nothing here performs input or output. The sensor word, the results of the
//! radio and socket calls and the readings of the monotonic clock come in as
//! plain values; what to do next goes out as an action. The program around
//! this library owns the peripherals and runs the loop.
//!
//! - `sensor`: decoding of the converter's 16-bit words.
//! - `request`: the request line, written into a bounded buffer.
//! - `clock`: deadlines and the network stack's timestamp.
//! - `link`: association and address lease.
//! - `cycle`: one reporting cycle with its timed phases.
//! - `main_loop`: the link and the cycle together.

pub mod clock;
pub mod cycle;
pub mod link;
pub mod main_loop;
pub mod request;
pub mod sensor;
