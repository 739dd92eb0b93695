//! Command/response codec for Mini-Circuits SSG signal generators driven over
//! 64-byte HID interrupt reports.
use vstd::prelude::*;

pub mod codec;
pub mod reply;
pub mod device;
pub mod bootstrap;

pub use device::{MclSsg, Ssg6000, SsgXg};
pub use reply::Status;

verus! {

/// What can go wrong while talking to a generator.
#[derive(Clone, Copy, Debug, PartialEq, Eq, Structural)]
pub enum Error {
    /// A text field of a reply is not valid UTF-8.
    InvalidString,
    /// The transport failed to write or read a report.
    Hid,
    /// The connected generator belongs to another model family.
    WrongDevice,
    /// A reply carried a different opcode than the command it answers.
    BadHidRead,
    /// A requested value lies outside the generator's limits.
    OutOfRange,
    /// A reply lacks the structure its field needs, such as a terminating zero.
    MalformedFrame,
}

} // verus!
