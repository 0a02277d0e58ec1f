//! Seals: what a right is bound to.

use crate::id::OutPoint;
use vstd::prelude::*;

verus! {

/// A revealed seal definition.
#[derive(Clone, Copy, PartialEq, Eq, Structural, Hash, Debug)]
pub enum Revealed {
    /// The seal names a chain output.
    TxOutpoint(OutPoint),
    /// The seal names an output of the transaction that will witness the
    /// node: there is none for a genesis.
    WitnessVout { vout: u32 },
}

/// A seal that names no chain output by itself.
#[derive(Clone, Copy, PartialEq, Eq, Structural, Hash, Debug)]
pub struct WitnessVoutError;

impl Revealed {
    pub open spec fn spec_outpoint(self) -> Option<OutPoint> {
        match self {
            Revealed::TxOutpoint(outpoint) => Some(outpoint),
            Revealed::WitnessVout { .. } => None,
        }
    }

    /// The chain output that the seal names.
    pub fn outpoint(&self) -> (r: Result<OutPoint, WitnessVoutError>)
        ensures
            r == match self.spec_outpoint() {
                Some(outpoint) => Ok::<OutPoint, WitnessVoutError>(outpoint),
                None => Err(WitnessVoutError),
            },
    {
        match self {
            Revealed::TxOutpoint(outpoint) => Ok(*outpoint),
            Revealed::WitnessVout { .. } => Err(WitnessVoutError),
        }
    }
}

} // verus!
