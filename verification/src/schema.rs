//! What the fungible-asset schema declares, as far as an asset is read from it.

use vstd::prelude::*;

verus! {

/// Metadata fields that the schema declares.
#[derive(Clone, Copy, PartialEq, Eq, Structural, Hash, Debug)]
pub enum FieldType {
    Ticker,
    Name,
    ContractText,
    Precision,
    IssuedSupply,
    Timestamp,
}

/// Ways in which contract data fails to match the schema.
#[derive(Clone, Copy, PartialEq, Eq, Structural, Hash, Debug)]
pub enum Error {
    /// The data is written under another schema.
    WrongSchemaId,
    /// A field that the schema requires is absent.
    NotAllFieldsPresent,
}

} // verus!
