//! The error kinds shared by both backends.

use vstd::prelude::*;

verus! {

/// Failure of a single configuration-space operation.
///
/// `Privilege` carries the errno of a failed acquisition or release of the
/// I/O privilege that brackets every CAM port transfer. `Io` carries the
/// errno of a failed descriptor operation. `Parse` reports text (an identity
/// file or a device path) that does not match its grammar, and `Conversion`
/// a numeric value that does not fit its target width.
#[derive(Clone, Copy, Debug, PartialEq, Eq, Structural)]
pub enum Error {
    Privilege(i32),
    Io(i32),
    Parse,
    Conversion,
}

} // verus!
