//! SX126x radio commands.
//!
//! Commands are grouped by function:
//! - [`dio`]: DIO pin, IRQ, RF switch and TCXO control
//! - [`operational`]: operating modes, power management, calibration
//! - [`rf`]: frequency, modulation and packet configuration
//! - [`status`]: device status, signal measurements and statistics
//!
//! Each command couples a one-byte opcode with a fixed-width parameter
//! encoding and, where the chip answers, a fixed-width response decoding.

pub mod dio;
pub mod operational;
pub mod rf;
pub mod status;

use vstd::prelude::*;

verus! {

/// Empty parameter and response payload for commands that carry none.
#[derive(Debug, Clone, Copy, PartialEq, Eq, Structural)]
pub struct NoParameters;

impl NoParameters {
    /// The empty byte sequence.
    pub open spec fn spec_to_bytes(self) -> Seq<u8> {
        Seq::empty()
    }

    pub fn to_bytes(self) -> (r: [u8; 0])
        ensures
            r@ == self.spec_to_bytes(),
    {
        let r = [];
        proof {
            assert(r@ =~= self.spec_to_bytes());
        }
        r
    }

    pub fn from_bytes(bytes: [u8; 0]) -> (r: NoParameters)
        ensures
            r == NoParameters,
    {
        NoParameters
    }
}

impl Default for NoParameters {
    fn default() -> (r: Self)
        ensures
            r == NoParameters,
    {
        NoParameters
    }
}

} // verus!
