//! Fixed byte constants of the wire format.

use vstd::prelude::*;

verus! {

/// Leading eight-byte tag that identifies a `swap_route_v2` instruction
/// payload; any payload that does not begin with it is rejected.
pub const SWAP_ROUTE_V2_DISCRIMINATOR: [u8; 8] = [249, 91, 84, 33, 69, 22, 0, 135];

/// The discriminator tag as a sequence, for use in specifications.
pub open spec fn spec_discriminator() -> Seq<u8> {
    seq![249u8, 91u8, 84u8, 33u8, 69u8, 22u8, 0u8, 135u8]
}

} // verus!
