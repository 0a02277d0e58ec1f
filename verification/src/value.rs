//! Amounts assigned to asset-ownership rights.

use crate::amount::AtomicValue;
use crate::id::Hash256;
use vstd::prelude::*;

verus! {

/// A revealed amount together with the factor that blinds its commitment.
#[derive(Clone, Copy, PartialEq, Eq, Structural, Hash, Debug)]
pub struct Revealed {
    pub value: AtomicValue,
    pub blinding: Hash256,
}

} // verus!
