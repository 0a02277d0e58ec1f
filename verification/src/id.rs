//! Identifiers: 256-bit hashes and the chain outputs that rights are bound to.

use vstd::prelude::*;

verus! {

/// A 256-bit value as two 128-bit halves, the more significant first, so
/// that comparing `(hi, lo)` pairs orders the values as their big-endian
/// bytes do.
#[derive(Clone, Copy, PartialEq, Eq, Structural, Hash, Debug)]
pub struct Hash256 {
    pub hi: u128,
    pub lo: u128,
}

/// Identifier of the schema that a contract is written under.
#[derive(Clone, Copy, PartialEq, Eq, Structural, Hash, Debug)]
pub struct SchemaId(pub Hash256);

/// Identifier of a contract, which is the identifier of its asset.
#[derive(Clone, Copy, PartialEq, Eq, Structural, Hash, Debug)]
pub struct ContractId(pub Hash256);

/// Identifier of a genesis or state-transition node.
#[derive(Clone, Copy, PartialEq, Eq, Structural, Hash, Debug)]
pub struct NodeId(pub Hash256);

/// Identifier of a chain transaction.
#[derive(Clone, Copy, PartialEq, Eq, Structural, Hash, Debug)]
pub struct Txid(pub Hash256);

/// One output of one chain transaction.
#[derive(Clone, Copy, PartialEq, Eq, Structural, Hash, Debug)]
pub struct OutPoint {
    pub txid: Txid,
    pub vout: u32,
}

/// An outpoint as a tuple of integers: transaction identifier, then output
/// number. Maps keyed by it are ordered by outpoint.
pub type OutPointKey = (u128, u128, u32);

impl ContractId {
    pub fn into_inner(self) -> (r: Hash256)
        ensures
            r == self.0,
    {
        self.0
    }
}

impl NodeId {
    pub fn from_inner(inner: Hash256) -> (r: Self)
        ensures
            r == NodeId(inner),
    {
        NodeId(inner)
    }
}

impl OutPoint {
    pub open spec fn spec_key(self) -> OutPointKey {
        (self.txid.0.hi, self.txid.0.lo, self.vout)
    }

    /// The outpoint that a key stands for.
    pub open spec fn spec_from_key(key: OutPointKey) -> OutPoint {
        OutPoint { txid: Txid(Hash256 { hi: key.0, lo: key.1 }), vout: key.2 }
    }

    /// The key under which maps hold this outpoint.
    pub fn key(&self) -> (k: OutPointKey)
        ensures
            k == self.spec_key(),
    {
        (self.txid.0.hi, self.txid.0.lo, self.vout)
    }

    pub fn from_key(key: OutPointKey) -> (r: OutPoint)
        ensures
            r == Self::spec_from_key(key),
    {
        OutPoint { txid: Txid(Hash256 { hi: key.0, lo: key.1 }), vout: key.2 }
    }
}

} // verus!
