//! Genesis and state-transition nodes as an asset is read from them:
//! metadata fields and the states of owned rights.

use crate::data;
use crate::id::{ContractId, NodeId, SchemaId};
use crate::schema::FieldType;
use crate::seal;
use crate::value;
use lnpbp::chain::Chain;
use vstd::prelude::*;

verus! {

/// One value of one metadata field.
#[derive(Clone, PartialEq, Eq, Debug)]
pub struct MetadataField {
    pub field_type: FieldType,
    pub value: data::Revealed,
}

/// The metadata of a node: field values in the order in which the node
/// lists them.
#[derive(Clone, PartialEq, Eq, Debug)]
pub struct Metadata {
    pub fields: Vec<MetadataField>,
}

/// The state of one owned right, by how much of it is revealed.
#[derive(Clone, PartialEq, Eq, Debug)]
pub enum OwnedState<S> {
    /// Neither the seal nor the assigned state is known.
    Confidential,
    /// Both the seal and the assigned state are known.
    Revealed { seal_definition: seal::Revealed, assigned_state: S },
    /// The assigned state is known, the seal is hidden.
    ConfidentialSeal { assigned_state: S },
    /// The seal is known, the assigned state is hidden.
    ConfidentialAmount { seal_definition: seal::Revealed },
}

/// A genesis: the founding node of a contract.
#[derive(Clone, Debug)]
pub struct Genesis {
    pub schema_id: SchemaId,
    pub contract_id: ContractId,
    pub node_id: NodeId,
    pub chain: Chain,
    pub metadata: Metadata,
    /// States of the inflation rights, in the order of the node.
    pub inflation: Vec<OwnedState<data::Revealed>>,
    /// States of the asset-ownership rights, in the order of the node.
    pub assets: Vec<OwnedState<value::Revealed>>,
}

/// A state transition: a node that follows the genesis.
#[derive(Clone, Debug)]
pub struct Transition {
    pub node_id: NodeId,
    pub metadata: Metadata,
    pub inflation: Vec<OwnedState<data::Revealed>>,
    pub assets: Vec<OwnedState<value::Revealed>>,
}

impl Metadata {
    /// Whether entry `i` is a value of type `data_type` of field `field_type`.
    pub open spec fn holds(self, i: int, field_type: FieldType, data_type: data::DataType) -> bool {
        &&& self.fields[i].field_type == field_type
        &&& self.fields[i].value.spec_data_type() == data_type
    }

    /// The first entry at or after `from` that is a value of type
    /// `data_type` of field `field_type`.
    pub open spec fn first_from(
        self,
        field_type: FieldType,
        data_type: data::DataType,
        from: nat,
    ) -> Option<int>
        decreases self.fields.len() - from,
    {
        if from >= self.fields.len() {
            None
        } else if self.holds(from as int, field_type, data_type) {
            Some(from as int)
        } else {
            self.first_from(field_type, data_type, from + 1)
        }
    }

    /// The first entry that is a value of type `data_type` of field
    /// `field_type`.
    pub open spec fn spec_position(
        self,
        field_type: FieldType,
        data_type: data::DataType,
    ) -> Option<int> {
        self.first_from(field_type, data_type, 0)
    }

    pub open spec fn spec_first(self, field_type: FieldType, data_type: data::DataType) -> Option<
        data::Revealed,
    > {
        match self.spec_position(field_type, data_type) {
            Some(i) => Some(self.fields[i].value),
            None => None,
        }
    }

    pub open spec fn spec_u8(self, field_type: FieldType) -> Option<u8> {
        match self.spec_first(field_type, data::DataType::U8) {
            Some(value) => value.spec_u8(),
            None => None,
        }
    }

    pub open spec fn spec_u64(self, field_type: FieldType) -> Option<u64> {
        match self.spec_first(field_type, data::DataType::U64) {
            Some(value) => value.spec_u64(),
            None => None,
        }
    }

    pub open spec fn spec_i64(self, field_type: FieldType) -> Option<i64> {
        match self.spec_first(field_type, data::DataType::I64) {
            Some(value) => value.spec_i64(),
            None => None,
        }
    }

    pub open spec fn spec_string(self, field_type: FieldType) -> Option<Seq<char>> {
        match self.spec_first(field_type, data::DataType::String) {
            Some(value) => value.spec_string(),
            None => None,
        }
    }

    /// What `first_from` finds comes first among the entries it looks at.
    pub proof fn lemma_first_from(self, field_type: FieldType, data_type: data::DataType, from: nat)
        ensures
            match self.first_from(field_type, data_type, from) {
                Some(i) => {
                    &&& from <= i < self.fields.len()
                    &&& self.holds(i, field_type, data_type)
                    &&& forall|j: int| from <= j < i ==> !self.holds(j, field_type, data_type)
                },
                None => forall|j: int|
                    from <= j < self.fields.len() ==> !self.holds(j, field_type, data_type),
            },
        decreases self.fields.len() - from,
    {
        if from < self.fields.len() && !self.holds(from as int, field_type, data_type) {
            self.lemma_first_from(field_type, data_type, from + 1);
        }
    }

    /// The place of the first value of type `data_type` of field
    /// `field_type`.
    pub fn position(&self, field_type: FieldType, data_type: data::DataType) -> (r: Option<usize>)
        ensures
            match r {
                Some(i) => self.spec_position(field_type, data_type) == Some(i as int),
                None => self.spec_position(field_type, data_type) is None,
            },
            match r {
                Some(i) => {
                    &&& i < self.fields.len()
                    &&& self.holds(i as int, field_type, data_type)
                    &&& forall|j: int| 0 <= j < i ==> !self.holds(j, field_type, data_type)
                },
                None => forall|j: int|
                    0 <= j < self.fields.len() ==> !self.holds(j, field_type, data_type),
            },
    {
        proof {
            self.lemma_first_from(field_type, data_type, 0);
        }
        let mut i: usize = 0;
        while i < self.fields.len()
            invariant
                i <= self.fields.len(),
                self.spec_position(field_type, data_type) == self.first_from(
                    field_type,
                    data_type,
                    i as nat,
                ),
            decreases self.fields.len() - i,
        {
            if self.fields[i].field_type == field_type && self.fields[i].value.data_type()
                == data_type {
                proof {
                    self.lemma_first_from(field_type, data_type, 0);
                }
                return Some(i);
            }
            i = i + 1;
        }
        None
    }

    /// The first unsigned byte of field `field_type`.
    pub fn u8(&self, field_type: FieldType) -> (r: Option<u8>)
        ensures
            r == self.spec_u8(field_type),
    {
        match self.position(field_type, data::DataType::U8) {
            Some(i) => self.fields[i].value.u8(),
            None => None,
        }
    }

    /// The first unsigned 64-bit integer of field `field_type`.
    pub fn u64(&self, field_type: FieldType) -> (r: Option<u64>)
        ensures
            r == self.spec_u64(field_type),
    {
        match self.position(field_type, data::DataType::U64) {
            Some(i) => self.fields[i].value.u64(),
            None => None,
        }
    }

    /// The first signed 64-bit integer of field `field_type`.
    pub fn i64(&self, field_type: FieldType) -> (r: Option<i64>)
        ensures
            r == self.spec_i64(field_type),
    {
        match self.position(field_type, data::DataType::I64) {
            Some(i) => self.fields[i].value.i64(),
            None => None,
        }
    }

    /// The first string of field `field_type`.
    pub fn string(&self, field_type: FieldType) -> (r: Option<&String>)
        ensures
            match r {
                Some(s) => self.spec_string(field_type) == Some(s@),
                None => self.spec_string(field_type) is None,
            },
    {
        match self.position(field_type, data::DataType::String) {
            Some(i) => self.fields[i].value.string(),
            None => None,
        }
    }
}

} // verus!
