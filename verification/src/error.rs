//! The kinds of I/O failure that the capturers report.
use vstd::prelude::*;

verus! {

/// Why a capture call gave no frame, or a capturer could not be made.
#[derive(Clone, Copy, Debug, PartialEq, Eq, Structural)]
pub enum ErrorKind {
    /// Nothing new to show yet; try again later.
    WouldBlock,
    /// Any other failure.
    Other,
}

} // verus!
