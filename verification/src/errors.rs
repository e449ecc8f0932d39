//! Error taxonomy of the marshaling layer.

use vstd::prelude::*;

verus! {

/// Status code with which the native library reports success.
pub const TA_SUCCESS: i32 = 0;

/// Everything that can go wrong while marshaling one indicator call.
///
/// A begin-plus-lookback region that exceeds the input length is *not* an
/// error: it is the ordinary "no result" outcome of short input and large
/// parameters, and yields an all-sentinel output instead.
#[derive(Clone, Copy, Debug, PartialEq, Eq, Structural)]
pub enum TaError {
    /// An input column cannot be read as the numeric type the native
    /// function requires.
    TypeMismatch,
    /// The native compute function returned a status other than success;
    /// the payload is that status code.
    NativeComputeError(i32),
    /// Every row of at least one required input is sentinel, so the shared
    /// leading invalid run never closes and no native call is possible.
    AllInvalidInput,
    /// The native call reported an output shape that does not fit the
    /// reserved output region (a negative index, or more values than the
    /// buffer has room for past the warm-up region).
    NativeOutputMismatch,
}

} // verus!
