//! The asset aggregate: identity, supply, issues and the index of known
//! allocations.

use crate::amount::{AccountingAmount, AccountingValue, AtomicValue};
use crate::date::{civil_from_timestamp, date_from_timestamp, CivilDateTime};
use crate::derivation::{
    derived, has_witness_seal, known_cap, lemma_derived_wf, read_allocations, read_inflation,
};
use crate::genesis::{Genesis, Transition};
use crate::id::{ContractId, NodeId, OutPoint, OutPointKey, SchemaId};
use crate::schema;
use crate::schema::FieldType;
use crate::seal::WitnessVoutError;
use crate::value;
use lnpbp::chain::Chain;
use std::collections::BTreeMap;
use vstd::prelude::*;
use vstd::std_specs::convert::FromSpecImpl;

verus! {

/// One unit of ownership: an amount bound to a chain output by the right at
/// place `index` of node `node_id`.
#[derive(Clone, Copy, PartialEq, Eq, Structural, Hash, Debug)]
pub struct Allocation {
    /// With `index`, the key of the allocation.
    pub node_id: NodeId,
    /// Place of the right among the ownership rights of the node.
    pub index: u16,
    /// Copy of the outpoint under which the asset files the allocation.
    pub outpoint: OutPoint,
    pub value: value::Revealed,
}

/// What is known of the supply of an asset.
#[derive(Clone, Copy, PartialEq, Eq, Hash, Debug)]
pub struct Supply {
    /// Sum of the issued amounts that are known.
    pub known_circulating: AccountingAmount,
    /// Whether every issue is known: `None` while that cannot be told.
    pub is_issued_known: Option<bool>,
    /// The most that can ever circulate.
    pub max_cap: AccountingAmount,
}

/// One issuance of an asset.
#[derive(Clone, Copy, PartialEq, Eq, Hash, Debug)]
pub struct Issue {
    /// The node that issues.
    pub id: NodeId,
    pub asset_id: ContractId,
    pub amount: AccountingAmount,
    /// The output whose spending allowed the issue; `None` for the issue of
    /// the genesis.
    pub origin: Option<OutPoint>,
}

/// Why no asset can be read from a genesis.
#[derive(Clone, Copy, PartialEq, Eq, Structural, Hash, Debug)]
pub enum Error {
    /// The genesis does not match the schema.
    Schema(schema::Error),
    /// A right of the genesis is sealed to an output of a witness
    /// transaction, which a genesis does not have.
    GenesisSeal,
}

impl From<schema::Error> for Error {
    fn from(err: schema::Error) -> (r: Error) {
        Error::Schema(err)
    }
}

impl FromSpecImpl<schema::Error> for Error {
    open spec fn obeys_from_spec() -> bool {
        true
    }

    open spec fn from_spec(err: schema::Error) -> Error {
        Error::Schema(err)
    }
}

impl From<WitnessVoutError> for Error {
    fn from(err: WitnessVoutError) -> (r: Error) {
        Error::GenesisSeal
    }
}

impl FromSpecImpl<WitnessVoutError> for Error {
    open spec fn obeys_from_spec() -> bool {
        true
    }

    open spec fn from_spec(err: WitnessVoutError) -> Error {
        Error::GenesisSeal
    }
}

impl Default for Supply {
    fn default() -> (r: Supply)
        ensures
            r == (Supply {
                known_circulating: AccountingAmount { atomic_value: 0, fractional_bits: 0 },
                is_issued_known: None,
                max_cap: AccountingAmount { atomic_value: 0, fractional_bits: 0 },
            }),
    {
        Supply {
            known_circulating: AccountingAmount::default(),
            is_issued_known: None,
            max_cap: AccountingAmount::default(),
        }
    }
}

impl Supply {
    /// The amount in circulation, where every issue is known.
    pub fn total_circulating(&self) -> (r: Option<AccountingAmount>)
        ensures
            r == if self.is_issued_known == Some(true) {
                Some(self.known_circulating)
            } else {
                None
            },
    {
        match self.is_issued_known {
            Some(true) => Some(self.known_circulating),
            _ => None,
        }
    }
}

impl Issue {
    /// Whether the genesis issued.
    pub fn is_primary(&self) -> (r: bool)
        ensures
            r == (self.origin is None),
    {
        self.origin.is_none()
    }

    /// Whether the spending of an inflation right issued.
    pub fn is_secondary(&self) -> (r: bool)
        ensures
            r == (self.origin is Some),
    {
        self.origin.is_some()
    }
}

/// The bucket that `buckets` holds for `outpoint`: empty where it holds none.
pub open spec fn bucket_of(
    buckets: Map<OutPoint, Seq<Allocation>>,
    outpoint: OutPoint,
) -> Seq<Allocation> {
    if buckets.contains_key(outpoint) {
        buckets[outpoint]
    } else {
        Seq::empty()
    }
}

/// `buckets` once `allocation` is filed: its bucket exists, and holds the
/// allocation once.
pub open spec fn with_allocation(
    buckets: Map<OutPoint, Seq<Allocation>>,
    allocation: Allocation,
) -> Map<OutPoint, Seq<Allocation>> {
    let bucket = bucket_of(buckets, allocation.outpoint);
    buckets.insert(
        allocation.outpoint,
        if bucket.contains(allocation) {
            bucket
        } else {
            bucket.push(allocation)
        },
    )
}

/// `buckets` once the first entry equal to `allocation` has left its
/// bucket. The bucket exists afterwards, be it empty.
pub open spec fn without_allocation(
    buckets: Map<OutPoint, Seq<Allocation>>,
    allocation: Allocation,
) -> Map<OutPoint, Seq<Allocation>> {
    buckets.insert(
        allocation.outpoint,
        bucket_of(buckets, allocation.outpoint).remove_value(allocation),
    )
}

/// A bucket is in order when it holds no allocation twice and each of its
/// allocations names the outpoint of the bucket.
pub open spec fn bucket_wf(outpoint: OutPoint, bucket: Seq<Allocation>) -> bool {
    &&& bucket.no_duplicates()
    &&& forall|i: int| 0 <= i < bucket.len() ==> (#[trigger] bucket[i]).outpoint == outpoint
}

pub open spec fn buckets_wf(buckets: Map<OutPoint, Seq<Allocation>>) -> bool {
    forall|outpoint: OutPoint| #[trigger]
        buckets.contains_key(outpoint) ==> bucket_wf(outpoint, buckets[outpoint])
}

/// An asset as a mathematical value.
pub struct AssetView {
    pub id: ContractId,
    pub ticker: Seq<char>,
    pub name: Seq<char>,
    pub description: Option<Seq<char>>,
    pub supply: Supply,
    pub chain: Chain,
    pub fractional_bits: u8,
    pub date: CivilDateTime,
    pub known_issues: Seq<Issue>,
    pub known_inflation: Map<OutPoint, AccountingAmount>,
    pub unknown_inflation: AccountingAmount,
    pub known_allocations: Map<OutPoint, Seq<Allocation>>,
}

impl AssetView {
    /// Every amount of the asset carries the precision of the asset, and
    /// the buckets of allocations are in order.
    pub open spec fn wf(self) -> bool {
        &&& self.supply.known_circulating.fractional_bits == self.fractional_bits
        &&& self.supply.max_cap.fractional_bits == self.fractional_bits
        &&& self.unknown_inflation.fractional_bits == self.fractional_bits
        &&& forall|i: int|
            0 <= i < self.known_issues.len() ==> self.fractional_bits == (
            #[trigger] self.known_issues[i]).amount.fractional_bits
        &&& forall|outpoint: OutPoint| #[trigger]
            self.known_inflation.contains_key(outpoint)
                ==> self.known_inflation[outpoint].fractional_bits == self.fractional_bits
        &&& buckets_wf(self.known_allocations)
    }
}

/// The map that `keyed` stands for, by outpoint.
pub open spec fn by_outpoint<V>(keyed: Map<OutPointKey, V>) -> Map<OutPoint, V> {
    Map::new(
        |outpoint: OutPoint| keyed.contains_key(outpoint.spec_key()),
        |outpoint: OutPoint| keyed[outpoint.spec_key()],
    )
}

/// Buckets as sequences, by outpoint.
pub open spec fn buckets_of(keyed: Map<OutPointKey, Vec<Allocation>>) -> Map<
    OutPoint,
    Seq<Allocation>,
> {
    Map::new(
        |outpoint: OutPoint| keyed.contains_key(outpoint.spec_key()),
        |outpoint: OutPoint| keyed[outpoint.spec_key()]@,
    )
}

/// A fungible asset as one observer knows it.
#[derive(PartialEq, Debug)]
pub struct Asset {
    id: ContractId,
    ticker: String,
    name: String,
    description: Option<String>,
    supply: Supply,
    chain: Chain,
    fractional_bits: u8,
    date: CivilDateTime,
    known_issues: Vec<Issue>,
    /// Outputs whose spending may inflate the asset, each with the most
    /// that it allows.
    known_inflation: BTreeMap<OutPointKey, AccountingAmount>,
    /// The most by which the asset can be inflated out of sight.
    unknown_inflation: AccountingAmount,
    /// Outputs that hold amounts of the asset.
    known_allocations: BTreeMap<OutPointKey, Vec<Allocation>>,
}

impl View for Asset {
    type V = AssetView;

    closed spec fn view(&self) -> AssetView {
        AssetView {
            id: self.id,
            ticker: self.ticker@,
            name: self.name@,
            description: match self.description {
                Some(text) => Some(text@),
                None => None,
            },
            supply: self.supply,
            chain: self.chain,
            fractional_bits: self.fractional_bits,
            date: self.date,
            known_issues: self.known_issues@,
            known_inflation: by_outpoint(self.known_inflation@),
            unknown_inflation: self.unknown_inflation,
            known_allocations: buckets_of(self.known_allocations@),
        }
    }
}

impl Clone for Asset {
    fn clone(&self) -> (copy: Self)
        ensures
            copy@ == self@,
    {
        proof {
            use_type_invariant(self);
        }
        let description = match &self.description {
            Some(text) => Some(text.clone()),
            None => None,
        };
        let known_issues = self.known_issues.clone();
        Asset {
            id: self.id,
            ticker: self.ticker.clone(),
            name: self.name.clone(),
            description,
            supply: self.supply,
            chain: self.chain.clone(),
            fractional_bits: self.fractional_bits,
            date: self.date,
            known_issues,
            known_inflation: self.known_inflation.clone(),
            unknown_inflation: self.unknown_inflation,
            known_allocations: self.known_allocations.clone(),
        }
    }
}

/// Files `allocation` in its bucket unless the bucket holds it already.
pub(crate) fn file_allocation(
    buckets: &mut BTreeMap<OutPointKey, Vec<Allocation>>,
    allocation: Allocation,
) -> (inserted: bool)
    ensures
        buckets_of(final(buckets)@) == with_allocation(buckets_of(old(buckets)@), allocation),
        inserted == !bucket_of(buckets_of(old(buckets)@), allocation.outpoint).contains(allocation),
{
    let key = allocation.outpoint.key();
    let mut bucket = match buckets.remove(&key) {
        Some(bucket) => bucket,
        None => Vec::new(),
    };
    let ghost before = bucket@;
    let mut found = false;
    let mut i: usize = 0;
    while i < bucket.len()
        invariant
            i <= bucket.len(),
            bucket@ == before,
            found == exists|j: int| 0 <= j < i && before[j] == allocation,
        decreases bucket.len() - i,
    {
        if bucket[i] == allocation {
            found = true;
        }
        i = i + 1;
    }
    if !found {
        bucket.push(allocation);
    }
    buckets.insert(key, bucket);
    !found
}

/// Takes the first entry equal to `allocation` out of its bucket, which it
/// makes where there is none.
fn unfile_allocation(
    buckets: &mut BTreeMap<OutPointKey, Vec<Allocation>>,
    allocation: Allocation,
) -> (removed: bool)
    ensures
        buckets_of(final(buckets)@) == without_allocation(buckets_of(old(buckets)@), allocation),
        removed == bucket_of(buckets_of(old(buckets)@), allocation.outpoint).contains(allocation),
{
    let key = allocation.outpoint.key();
    let mut bucket = match buckets.remove(&key) {
        Some(bucket) => bucket,
        None => Vec::new(),
    };
    let ghost before = bucket@;
    proof {
        before.index_of_first_ensures(allocation);
    }
    let mut found: Option<usize> = None;
    let mut i: usize = 0;
    while i < bucket.len() && found.is_none()
        invariant
            i <= bucket.len(),
            bucket@ == before,
            forall|j: int| 0 <= j < i && found is None ==> before[j] != allocation,
            found matches Some(at) ==> at < bucket.len() && before.index_of_first(allocation)
                == Some(at as int),
        decreases bucket.len() - i + if found is None { 1int } else { 0int },
    {
        if bucket[i] == allocation {
            proof {
                before.index_of_first_ensures(allocation);
            }
            found = Some(i);
        } else {
            i = i + 1;
        }
    }
    let removed = match found {
        Some(at) => {
            bucket.remove(at);
            true
        },
        None => false,
    };
    buckets.insert(key, bucket);
    removed
}

impl Asset {
    #[verifier::type_invariant]
    spec fn inv(&self) -> bool {
        self@.wf()
    }

    /// The identifier of the contract that founds the asset.
    pub fn id(&self) -> (r: &ContractId)
        ensures
            *r == self@.id,
            self@.wf(),
    {
        proof {
            use_type_invariant(self);
        }
        &self.id
    }

    pub fn ticker(&self) -> (r: &String)
        ensures
            r@ == self@.ticker,
    {
        &self.ticker
    }

    pub fn name(&self) -> (r: &String)
        ensures
            r@ == self@.name,
    {
        &self.name
    }

    pub fn description(&self) -> (r: &Option<String>)
        ensures
            match *r {
                Some(text) => self@.description == Some(text@),
                None => self@.description is None,
            },
    {
        &self.description
    }

    pub fn supply(&self) -> (r: &Supply)
        ensures
            *r == self@.supply,
    {
        &self.supply
    }

    pub fn chain(&self) -> (r: &Chain)
        ensures
            *r == self@.chain,
    {
        &self.chain
    }

    pub fn fractional_bits(&self) -> (r: u8)
        ensures
            r == self@.fractional_bits,
    {
        self.fractional_bits
    }

    pub fn date(&self) -> (r: &CivilDateTime)
        ensures
            *r == self@.date,
    {
        &self.date
    }

    pub fn known_issues(&self) -> (r: &Vec<Issue>)
        ensures
            r@ == self@.known_issues,
    {
        &self.known_issues
    }

    /// The known inflation rights, keyed and ordered by outpoint.
    pub fn known_inflation(&self) -> (r: &BTreeMap<OutPointKey, AccountingAmount>)
        ensures
            by_outpoint(r@) == self@.known_inflation,
    {
        &self.known_inflation
    }

    pub fn unknown_inflation(&self) -> (r: &AccountingAmount)
        ensures
            *r == self@.unknown_inflation,
    {
        &self.unknown_inflation
    }

    /// The buckets of known allocations, keyed and ordered by outpoint.
    pub fn known_allocations(&self) -> (r: &BTreeMap<OutPointKey, Vec<Allocation>>)
        ensures
            buckets_of(r@) == self@.known_allocations,
    {
        &self.known_allocations
    }

    /// Applying a later issue to the supply has no rule yet: no supply is
    /// given, and the asset stays as it is.
    pub fn add_issue(&self, issue: &Transition) -> (r: Option<Supply>)
        ensures
            r is None,
    {
        None
    }

    /// The allocations filed under `seal`: `None` where the asset has no
    /// bucket for it, which an empty bucket is not.
    pub fn allocations(&self, seal: &OutPoint) -> (r: Option<&Vec<Allocation>>)
        ensures
            match r {
                Some(bucket) => self@.known_allocations.contains_key(*seal) && bucket@
                    == self@.known_allocations[*seal],
                None => !self@.known_allocations.contains_key(*seal),
            },
    {
        self.known_allocations.get(&seal.key())
    }

    /// Files the allocation under `outpoint`, in a new bucket where there is
    /// none, unless the bucket holds an equal one already. Says whether it
    /// was filed.
    pub fn add_allocation(
        &mut self,
        outpoint: OutPoint,
        node_id: NodeId,
        index: u16,
        value: value::Revealed,
    ) -> (inserted: bool)
        ensures
            final(self)@ == (AssetView {
                known_allocations: with_allocation(
                    old(self)@.known_allocations,
                    Allocation { node_id, index, outpoint, value },
                ),
                ..old(self)@
            }),
            inserted == !bucket_of(old(self)@.known_allocations, outpoint).contains(
                Allocation { node_id, index, outpoint, value },
            ),
            final(self)@.wf(),
    {
        proof {
            use_type_invariant(&*self);
        }
        let new_allocation = Allocation { node_id, index, outpoint, value };
        proof {
            lemma_with_allocation_wf(self@.known_allocations, new_allocation);
        }
        let mut buckets = BTreeMap::new();
        core::mem::swap(&mut self.known_allocations, &mut buckets);
        let inserted = file_allocation(&mut buckets, new_allocation);
        core::mem::swap(&mut self.known_allocations, &mut buckets);
        inserted
    }

    /// Takes the first allocation equal to the given one out of the bucket
    /// of `outpoint`, which it makes where there is none and leaves in place
    /// when it gets empty. Says whether one was taken out.
    pub fn remove_allocation(
        &mut self,
        outpoint: OutPoint,
        node_id: NodeId,
        index: u16,
        value: value::Revealed,
    ) -> (removed: bool)
        ensures
            final(self)@ == (AssetView {
                known_allocations: without_allocation(
                    old(self)@.known_allocations,
                    Allocation { node_id, index, outpoint, value },
                ),
                ..old(self)@
            }),
            removed == bucket_of(old(self)@.known_allocations, outpoint).contains(
                Allocation { node_id, index, outpoint, value },
            ),
            final(self)@.wf(),
    {
        proof {
            use_type_invariant(&*self);
        }
        let old_allocation = Allocation { node_id, index, outpoint, value };
        proof {
            lemma_without_allocation_wf(self@.known_allocations, old_allocation);
        }
        let mut buckets = BTreeMap::new();
        core::mem::swap(&mut self.known_allocations, &mut buckets);
        let removed = unfile_allocation(&mut buckets, old_allocation);
        core::mem::swap(&mut self.known_allocations, &mut buckets);
        removed
    }

    /// Reads the asset that `genesis` founds under the schema `schema_id`,
    /// with `date` for the date of issue.
    pub fn from_dated_genesis(genesis: &Genesis, schema_id: SchemaId, date: CivilDateTime) -> (r:
        Result<Asset, Error>)
        ensures
            match r {
                Ok(asset) => genesis.spec_error(schema_id) is None && asset@ == derived(
                    *genesis,
                    date,
                ) && asset@.wf(),
                Err(err) => genesis.spec_error(schema_id) == Some(err),
            },
    {
        if genesis.schema_id != schema_id {
            return Err(Error::from(schema::Error::WrongSchemaId));
        }
        let genesis_meta = &genesis.metadata;
        let fractional_bits = match genesis_meta.u8(FieldType::Precision) {
            Some(bits) => bits,
            None => {
                return Err(Error::from(schema::Error::NotAllFieldsPresent));
            },
        };
        let supply = match genesis_meta.u64(FieldType::IssuedSupply) {
            Some(issued) => AccountingAmount::from_fractioned_atomic_value(fractional_bits, issued),
            None => {
                return Err(Error::from(schema::Error::NotAllFieldsPresent));
            },
        };
        let ticker = match genesis_meta.string(FieldType::Ticker) {
            Some(ticker) => ticker.clone(),
            None => {
                return Err(Error::from(schema::Error::NotAllFieldsPresent));
            },
        };
        let name = match genesis_meta.string(FieldType::Name) {
            Some(name) => name.clone(),
            None => {
                return Err(Error::from(schema::Error::NotAllFieldsPresent));
            },
        };
        if genesis_meta.i64(FieldType::Timestamp).is_none() {
            return Err(Error::from(schema::Error::NotAllFieldsPresent));
        }
        let description = match genesis_meta.string(FieldType::ContractText) {
            Some(text) => Some(text.clone()),
            None => None,
        };
        let (known_inflation, unknown_inflation) = match read_inflation(
            &genesis.inflation,
            fractional_bits,
        ) {
            Ok(inflation) => inflation,
            Err(err) => {
                return Err(err);
            },
        };
        if has_witness_seal(&genesis.assets) {
            return Err(Error::from(WitnessVoutError));
        }
        let node_id = NodeId::from_inner(genesis.contract_id.into_inner());
        let known_allocations = read_allocations(&genesis.assets, node_id);
        let max_cap = if genesis.inflation.len() > 0 {
            AccountingAmount::from_fractioned_atomic_value(
                fractional_bits,
                known_cap(&genesis.inflation),
            )
        } else {
            supply
        };
        let issue = Issue {
            id: genesis.node_id,
            asset_id: genesis.contract_id,
            amount: supply,
            origin: None,
        };
        let mut known_issues = Vec::new();
        known_issues.push(issue);
        proof {
            lemma_derived_wf(*genesis, date);
        }
        Ok(
            Asset {
                id: genesis.contract_id,
                ticker,
                name,
                description,
                supply: Supply { known_circulating: supply, is_issued_known: None, max_cap },
                chain: genesis.chain.clone(),
                fractional_bits,
                date,
                known_issues,
                known_inflation,
                unknown_inflation,
                known_allocations,
            },
        )
    }

    /// Reads the asset that `genesis` founds under the schema `schema_id`.
    /// The date of issue is the calendar date of the timestamp of the
    /// genesis.
    pub fn try_from(genesis: Genesis, schema_id: SchemaId) -> (r: Result<Asset, Error>)
        requires
            genesis.spec_error(schema_id) is None ==> civil_from_timestamp(
                genesis.metadata.spec_i64(FieldType::Timestamp).unwrap(),
            ) is Some,
        ensures
            match r {
                Ok(asset) => genesis.spec_error(schema_id) is None && asset@ == derived(
                    genesis,
                    civil_from_timestamp(
                        genesis.metadata.spec_i64(FieldType::Timestamp).unwrap(),
                    ).unwrap(),
                ) && asset@.wf(),
                Err(err) => genesis.spec_error(schema_id) == Some(err),
            },
    {
        let date = match genesis.metadata.i64(FieldType::Timestamp) {
            Some(timestamp) => date_from_timestamp(timestamp),
            None => None,
        };
        match date {
            Some(date) => Self::from_dated_genesis(&genesis, schema_id, date),
            None => Err(genesis.error(schema_id).unwrap()),
        }
    }

    /// Reads the asset that `genesis` founds under the schema `schema_id`,
    /// where that can be done: `None` where the genesis is without error
    /// but its timestamp is beyond the calendar.
    pub fn checked_try_from(genesis: Genesis, schema_id: SchemaId) -> (r: Option<
        Result<Asset, Error>,
    >)
        ensures
            match r {
                Some(Ok(asset)) => {
                    &&& genesis.spec_error(schema_id) is None
                    &&& civil_from_timestamp(
                        genesis.metadata.spec_i64(FieldType::Timestamp).unwrap(),
                    ) is Some
                    &&& asset@ == derived(
                        genesis,
                        civil_from_timestamp(
                            genesis.metadata.spec_i64(FieldType::Timestamp).unwrap(),
                        ).unwrap(),
                    )
                    &&& asset@.wf()
                },
                Some(Err(err)) => genesis.spec_error(schema_id) == Some(err),
                None => {
                    &&& genesis.spec_error(schema_id) is None
                    &&& civil_from_timestamp(
                        genesis.metadata.spec_i64(FieldType::Timestamp).unwrap(),
                    ) is None
                },
            },
    {
        match genesis.error(schema_id) {
            Some(err) => Some(Err(err)),
            None => {
                let timestamp = genesis.metadata.i64(FieldType::Timestamp).unwrap();
                if date_from_timestamp(timestamp).is_some() {
                    Some(Self::try_from(genesis, schema_id))
                } else {
                    None
                }
            },
        }
    }
}

impl AccountingAmount {
    /// The amount of `atomic_value` units at the precision of `asset`.
    pub fn from_asset_atomic_value(asset: &Asset, atomic_value: AtomicValue) -> (r: Self)
        ensures
            r == (AccountingAmount { atomic_value, fractional_bits: asset@.fractional_bits }),
    {
        AccountingAmount { atomic_value, fractional_bits: asset.fractional_bits }
    }

    /// The amount that a decimal value stands for at the precision of
    /// `asset`: the whole part is taken as it is and the scaled fraction is
    /// added to it, not shifted.
    pub fn from_asset_accounting_value(asset: &Asset, accounting_value: AccountingValue) -> (r:
        Self)
        requires
            accounting_value.whole + accounting_value.fraction <= u64::MAX,
        ensures
            r.fractional_bits == asset@.fractional_bits,
            r.atomic_value == accounting_value.whole + accounting_value.fraction,
    {
        Self::from_fractioned_accounting_value(asset.fractional_bits, accounting_value)
    }
}

/// Filing an allocation keeps buckets in order.
pub proof fn lemma_with_allocation_wf(
    buckets: Map<OutPoint, Seq<Allocation>>,
    allocation: Allocation,
)
    requires
        buckets_wf(buckets),
    ensures
        buckets_wf(with_allocation(buckets, allocation)),
{
    let bucket = bucket_of(buckets, allocation.outpoint);
    let after = with_allocation(buckets, allocation);
    assert forall|outpoint: OutPoint| #[trigger] after.contains_key(outpoint) implies bucket_wf(
        outpoint,
        after[outpoint],
    ) by {
        if outpoint == allocation.outpoint {
            assert(bucket_wf(outpoint, bucket));
        }
    }
}

/// Taking an allocation out keeps buckets in order.
pub proof fn lemma_without_allocation_wf(
    buckets: Map<OutPoint, Seq<Allocation>>,
    allocation: Allocation,
)
    requires
        buckets_wf(buckets),
    ensures
        buckets_wf(without_allocation(buckets, allocation)),
{
    let bucket = bucket_of(buckets, allocation.outpoint);
    let after = without_allocation(buckets, allocation);
    bucket.index_of_first_ensures(allocation);
    assert forall|outpoint: OutPoint| #[trigger] after.contains_key(outpoint) implies bucket_wf(
        outpoint,
        after[outpoint],
    ) by {
        if outpoint == allocation.outpoint {
            assert(bucket_wf(outpoint, bucket));
            if let Some(at) = bucket.index_of_first(allocation) {
                let rest = bucket.remove(at);
                assert forall|i: int| 0 <= i < rest.len() implies rest[i] == bucket[if i < at {
                    i
                } else {
                    i + 1
                }] by {}
            }
        }
    }
}

/// Filing an allocation twice is filing it once: the second filing changes
/// nothing and finds the allocation there, and the first makes the bucket
/// longer by one entry exactly where the allocation was not in it.
pub proof fn lemma_add_allocation_idempotent(
    buckets: Map<OutPoint, Seq<Allocation>>,
    allocation: Allocation,
)
    ensures
        with_allocation(with_allocation(buckets, allocation), allocation) == with_allocation(
            buckets,
            allocation,
        ),
        bucket_of(with_allocation(buckets, allocation), allocation.outpoint).contains(allocation),
        bucket_of(with_allocation(buckets, allocation), allocation.outpoint).len() == bucket_of(
            buckets,
            allocation.outpoint,
        ).len() + if bucket_of(buckets, allocation.outpoint).contains(allocation) {
            0int
        } else {
            1int
        },
{
    let bucket = bucket_of(buckets, allocation.outpoint);
    if !bucket.contains(allocation) {
        assert(bucket.push(allocation)[bucket.len() as int] == allocation);
    }
}

/// Filing an allocation that a bucket does not hold and taking it out again
/// gives the bucket back as it was.
pub proof fn lemma_add_then_remove_allocation(
    buckets: Map<OutPoint, Seq<Allocation>>,
    allocation: Allocation,
)
    requires
        !bucket_of(buckets, allocation.outpoint).contains(allocation),
    ensures
        bucket_of(
            without_allocation(with_allocation(buckets, allocation), allocation),
            allocation.outpoint,
        ) == bucket_of(buckets, allocation.outpoint),
{
    let bucket = bucket_of(buckets, allocation.outpoint);
    let filed = bucket.push(allocation);
    assert(filed[bucket.len() as int] == allocation);
    filed.index_of_first_ensures(allocation);
    assert(filed.index_of_first(allocation) == Some(bucket.len() as int));
}

/// Taking out an allocation that its bucket does not hold leaves the
/// allocations of the bucket as they were.
pub proof fn lemma_remove_absent_allocation(
    buckets: Map<OutPoint, Seq<Allocation>>,
    allocation: Allocation,
)
    requires
        !bucket_of(buckets, allocation.outpoint).contains(allocation),
    ensures
        bucket_of(without_allocation(buckets, allocation), allocation.outpoint) == bucket_of(
            buckets,
            allocation.outpoint,
        ),
{
    bucket_of(buckets, allocation.outpoint).index_of_first_ensures(allocation);
}

} // verus!
