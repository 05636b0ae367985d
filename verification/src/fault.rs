//! The conditions that nothing can be done about.

use vstd::prelude::*;

verus! {

/// Why the driver has to stop. A fault is no error that a caller could act on: whoever drives the
/// library must not go on.
#[derive(Clone, Copy, PartialEq, Eq, Structural, Debug)]
pub enum Fault {
    /// The descriptors of the device do not fit in the bytes that it sent.
    BrokenDescriptors,
    /// A descriptor of length zero stands in the way of the next endpoint.
    EndlessDescriptors,
    /// The device returned a command status wrapper without its signature.
    MalformedStatus,
    /// The blocks of the device do not have `BLOCK_SIZE` bytes.
    BlockLength,
    /// The data to write are not as many bytes as there are blocks.
    DataLength,
}

} // verus!
