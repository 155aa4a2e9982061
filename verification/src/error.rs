use vstd::prelude::*;

verus! {

/// The ways in which preparing a tile can fail.
#[derive(Clone, Copy, Debug, PartialEq, Eq, Structural)]
pub enum GalileoError {
    /// The tile payload is malformed.
    Decode,
    /// The tile index lies outside what the tile scheme defines.
    Configuration,
    /// The payload could not be fetched.
    IO,
}

} // verus!
