//! RGB lighting protocol of the Fusion keyboard of the Gigabyte Aero 15X,
//! without the I/O.
//!
//! The crate computes what has to be said to the device and decides what to
//! do with each answer; the caller owns the USB handle and makes the calls.
//!
//! * `header` builds the eight-byte command header with its checksum.
//! * `preset` and `color` hold the tables of the built-in effects and colors.
//! * `usb` names the calls and transfers, and the answers to them.
//! * `open` acquires the keyboard, call by call, and rolls back on failure;
//!   it ends in a `FusionKBD`.
//! * `session` is the open session: each operation gives the transfers that
//!   carry it out.
//! * `run` takes the outcomes of those transfers, one by one, and says
//!   whether the operation goes on.
//! * `limits` holds the ranges of the values that a caller may pass.

pub mod color;
pub mod error;
pub mod header;
pub mod limits;
pub mod open;
pub mod preset;
pub mod run;
pub mod session;
pub mod usb;

pub use color::Color;
pub use error::{Error, Fault};
pub use header::Header;
pub use open::{Opening, Progress};
pub use preset::Preset;
pub use run::{Run, Verdict};
pub use session::{FusionKBD, Variant};
pub use usb::{Interface, Outcome, Reply, Request, Transfer};
