//! Stream identity: the two fixed process-wide output channels.

use vstd::prelude::*;

verus! {

/// One of the two standard output channels of the process. The binding of
/// each identity to its underlying stream resource is fixed for the process
/// lifetime.
#[derive(Clone, Copy, PartialEq, Eq, Structural, Debug)]
pub enum StreamId {
    StandardOutput,
    StandardError,
}

} // verus!
