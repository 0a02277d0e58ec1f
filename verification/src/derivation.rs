//! How the state of an asset is read from a genesis: the errors that stop
//! the reading, the classes of inflation rights, the allocations of the
//! ownership rights and the cap of the supply.

use crate::amount::AccountingAmount;
use crate::asset::{
    bucket_of, buckets_of, buckets_wf, by_outpoint, file_allocation, lemma_with_allocation_wf,
    with_allocation, Allocation, AssetView, Error, Issue, Supply,
};
use crate::date::CivilDateTime;
use crate::data;
use crate::genesis::{Genesis, OwnedState};
use crate::id::{NodeId, OutPoint, OutPointKey, SchemaId};
use crate::schema;
use crate::schema::FieldType;
use crate::seal;
use crate::value;
use std::collections::BTreeMap;
use vstd::prelude::*;

verus! {

/// Whether the state keeps what is assigned out of sight.
pub open spec fn amount_hidden<S>(state: OwnedState<S>) -> bool {
    state is Confidential || state is ConfidentialAmount
}

/// The amount that a state with a hidden seal reveals.
pub open spec fn partial_amount(state: OwnedState<data::Revealed>) -> int {
    match state {
        OwnedState::ConfidentialSeal { assigned_state: data::Revealed::U64(amount) } => {
            amount as int
        },
        _ => 0,
    }
}

/// Sum of the amounts that the first `n` states reveal behind hidden seals.
pub open spec fn partial_sum(states: Seq<OwnedState<data::Revealed>>, n: int) -> int
    decreases n,
{
    if n <= 0 {
        0
    } else {
        partial_sum(states, n - 1) + partial_amount(states[n - 1])
    }
}

/// Whether one of the first `n` states hides its amount.
pub open spec fn hidden_among<S>(states: Seq<OwnedState<S>>, n: int) -> bool
    decreases n,
{
    n > 0 && (hidden_among(states, n - 1) || amount_hidden(states[n - 1]))
}

/// The most by which the first `n` states allow to inflate out of sight:
/// without bound once a state hides its amount, else the sum of the amounts
/// behind hidden seals, as far as it can be represented.
pub open spec fn unknown_inflation_at(states: Seq<OwnedState<data::Revealed>>, n: int) -> int {
    if hidden_among(states, n) || partial_sum(states, n) >= u64::MAX {
        u64::MAX as int
    } else {
        partial_sum(states, n)
    }
}

/// Why the reading stops at state `i`, if it does. A revealed state needs a
/// seal to a chain output and an amount that is an unsigned 64-bit integer.
/// The amount behind a hidden seal is read, and has to be such an integer,
/// only while the states before it leave the hidden inflation bounded.
pub open spec fn inflation_state_error(states: Seq<OwnedState<data::Revealed>>, i: int) -> Option<
    Error,
> {
    match states[i] {
        OwnedState::Revealed { seal_definition, assigned_state } => {
            if seal_definition.spec_outpoint() is None {
                Some(Error::GenesisSeal)
            } else if assigned_state.spec_u64() is None {
                Some(Error::Schema(schema::Error::NotAllFieldsPresent))
            } else {
                None
            }
        },
        OwnedState::ConfidentialSeal { assigned_state } => {
            if unknown_inflation_at(states, i) < u64::MAX && assigned_state.spec_u64() is None {
                Some(Error::Schema(schema::Error::NotAllFieldsPresent))
            } else {
                None
            }
        },
        _ => None,
    }
}

/// The error of the first among the first `n` inflation states at which the
/// reading stops.
pub open spec fn inflation_error(states: Seq<OwnedState<data::Revealed>>, n: int) -> Option<Error>
    decreases n,
{
    if n <= 0 {
        None
    } else {
        match inflation_error(states, n - 1) {
            Some(err) => Some(err),
            None => inflation_state_error(states, n - 1),
        }
    }
}

/// The inflation rights among the first `n` states whose output and amount
/// are both known: for each output the amount of the last right sealed to
/// it, at precision `bits`.
pub open spec fn known_inflation_at(
    states: Seq<OwnedState<data::Revealed>>,
    bits: u8,
    n: int,
) -> Map<OutPoint, AccountingAmount>
    decreases n,
{
    if n <= 0 {
        Map::empty()
    } else {
        let before = known_inflation_at(states, bits, n - 1);
        match states[n - 1] {
            OwnedState::Revealed {
                seal_definition: seal::Revealed::TxOutpoint(outpoint),
                assigned_state: data::Revealed::U64(amount),
            } => before.insert(
                outpoint,
                AccountingAmount { atomic_value: amount, fractional_bits: bits },
            ),
            _ => before,
        }
    }
}

/// The output of a state that reveals both a chain output and an amount.
pub open spec fn known_right(state: OwnedState<data::Revealed>) -> Option<OutPoint> {
    match state {
        OwnedState::Revealed {
            seal_definition: seal::Revealed::TxOutpoint(outpoint),
            assigned_state: data::Revealed::U64(_),
        } => Some(outpoint),
        _ => None,
    }
}

/// The amount that the state reveals, be its seal known or hidden.
pub open spec fn known_amount(state: OwnedState<data::Revealed>) -> int {
    match state {
        OwnedState::Revealed { assigned_state: data::Revealed::U64(amount), .. } => amount as int,
        OwnedState::ConfidentialSeal { assigned_state: data::Revealed::U64(amount) } => {
            amount as int
        },
        _ => 0,
    }
}

/// Sum of the amounts that the first `n` states reveal.
pub open spec fn known_cap_at(states: Seq<OwnedState<data::Revealed>>, n: int) -> int
    decreases n,
{
    if n <= 0 {
        0
    } else {
        known_cap_at(states, n - 1) + known_amount(states[n - 1])
    }
}

/// Sum of the amounts that the first `n` states reveal, as far as it can be
/// represented: the greatest amount stands for every greater sum.
pub open spec fn known_cap_upto(states: Seq<OwnedState<data::Revealed>>, n: int) -> int {
    if known_cap_at(states, n) >= u64::MAX {
        u64::MAX as int
    } else {
        known_cap_at(states, n)
    }
}

/// Whether the state is revealed and sealed to an output of a witness
/// transaction.
pub open spec fn sealed_to_witness<S>(state: OwnedState<S>) -> bool {
    state matches OwnedState::Revealed { seal_definition, .. } && seal_definition.spec_outpoint()
        is None
}

/// Whether one of the first `n` states is revealed and sealed to an output
/// of a witness transaction.
pub open spec fn witness_among<S>(states: Seq<OwnedState<S>>, n: int) -> bool
    decreases n,
{
    n > 0 && (witness_among(states, n - 1) || sealed_to_witness(states[n - 1]))
}

/// The allocation that state `i` of the ownership rights of node `node_id`
/// gives: one for each revealed state that is sealed to a chain output. The
/// index is the place of the state, as far as sixteen bits hold it.
pub open spec fn genesis_allocation(
    node_id: NodeId,
    i: int,
    state: OwnedState<value::Revealed>,
) -> Option<Allocation> {
    match state {
        OwnedState::Revealed {
            seal_definition: seal::Revealed::TxOutpoint(outpoint),
            assigned_state,
        } => Some(
            Allocation { node_id, index: (i % 0x1_0000) as u16, outpoint, value: assigned_state },
        ),
        _ => None,
    }
}

/// The buckets that hold the allocations of the first `n` states, each
/// filed in the order of the states.
pub open spec fn allocations_at(
    states: Seq<OwnedState<value::Revealed>>,
    node_id: NodeId,
    n: int,
) -> Map<OutPoint, Seq<Allocation>>
    decreases n,
{
    if n <= 0 {
        Map::empty()
    } else {
        let before = allocations_at(states, node_id, n - 1);
        match genesis_allocation(node_id, n - 1, states[n - 1]) {
            Some(allocation) => with_allocation(before, allocation),
            None => before,
        }
    }
}

impl Genesis {
    /// Whether the metadata holds every field that an asset needs.
    pub open spec fn has_required_fields(self) -> bool {
        &&& self.metadata.spec_u8(FieldType::Precision) is Some
        &&& self.metadata.spec_u64(FieldType::IssuedSupply) is Some
        &&& self.metadata.spec_string(FieldType::Ticker) is Some
        &&& self.metadata.spec_string(FieldType::Name) is Some
        &&& self.metadata.spec_i64(FieldType::Timestamp) is Some
    }

    /// Why no asset can be read from the genesis under the schema
    /// `schema_id`, if none can: the schema is another one; else a required
    /// field is absent; else the reading stops at an inflation right; else
    /// an ownership right is sealed to a witness transaction.
    pub open spec fn spec_error(self, schema_id: SchemaId) -> Option<Error> {
        if self.schema_id != schema_id {
            Some(Error::Schema(schema::Error::WrongSchemaId))
        } else if !self.has_required_fields() {
            Some(Error::Schema(schema::Error::NotAllFieldsPresent))
        } else if inflation_error(self.inflation@, self.inflation@.len() as int) is Some {
            inflation_error(self.inflation@, self.inflation@.len() as int)
        } else if witness_among(self.assets@, self.assets@.len() as int) {
            Some(Error::GenesisSeal)
        } else {
            None
        }
    }

    /// The most that can ever circulate, in atomic units: the sum of the
    /// amounts that the inflation rights reveal, as far as it can be
    /// represented, or what the genesis issues where it has no inflation
    /// right. A sum beyond the greatest amount gives the greatest amount,
    /// which is the cap of an asset without a limit.
    pub open spec fn spec_max_cap(self) -> int {
        if self.inflation@.len() > 0 {
            known_cap_upto(self.inflation@, self.inflation@.len() as int)
        } else {
            self.metadata.spec_u64(FieldType::IssuedSupply).unwrap() as int
        }
    }
}

/// The asset that a genesis without error founds, issued on `date`.
pub open spec fn derived(genesis: Genesis, date: CivilDateTime) -> AssetView {
    let bits = genesis.metadata.spec_u8(FieldType::Precision).unwrap();
    let issued = AccountingAmount {
        atomic_value: genesis.metadata.spec_u64(FieldType::IssuedSupply).unwrap(),
        fractional_bits: bits,
    };
    AssetView {
        id: genesis.contract_id,
        ticker: genesis.metadata.spec_string(FieldType::Ticker).unwrap(),
        name: genesis.metadata.spec_string(FieldType::Name).unwrap(),
        description: genesis.metadata.spec_string(FieldType::ContractText),
        supply: Supply {
            known_circulating: issued,
            is_issued_known: None,
            max_cap: AccountingAmount {
                atomic_value: genesis.spec_max_cap() as u64,
                fractional_bits: bits,
            },
        },
        chain: genesis.chain,
        fractional_bits: bits,
        date,
        known_issues: seq![
            Issue {
                id: genesis.node_id,
                asset_id: genesis.contract_id,
                amount: issued,
                origin: None,
            },
        ],
        known_inflation: known_inflation_at(
            genesis.inflation@,
            bits,
            genesis.inflation@.len() as int,
        ),
        unknown_inflation: AccountingAmount {
            atomic_value: unknown_inflation_at(
                genesis.inflation@,
                genesis.inflation@.len() as int,
            ) as u64,
            fractional_bits: bits,
        },
        known_allocations: allocations_at(
            genesis.assets@,
            NodeId(genesis.contract_id.0),
            genesis.assets@.len() as int,
        ),
    }
}

/// Once the reading has stopped it stays stopped, with the same error.
pub proof fn lemma_inflation_error_stays(states: Seq<OwnedState<data::Revealed>>, m: int, n: int)
    requires
        m <= n,
        inflation_error(states, m) is Some,
    ensures
        inflation_error(states, n) == inflation_error(states, m),
    decreases n - m,
{
    if m < n {
        lemma_inflation_error_stays(states, m, n - 1);
    }
}

/// A state sealed to a witness transaction is found among any more states.
pub proof fn lemma_witness_stays<S>(states: Seq<OwnedState<S>>, m: int, n: int)
    requires
        m <= n,
        witness_among(states, m),
    ensures
        witness_among(states, n),
    decreases n - m,
{
    if m < n {
        lemma_witness_stays(states, m, n - 1);
    }
}

/// Reads the inflation rights: the known ones by output, and the bound of
/// the hidden ones, both at precision `bits`.
pub fn read_inflation(states: &Vec<OwnedState<data::Revealed>>, bits: u8) -> (r: Result<
    (BTreeMap<OutPointKey, AccountingAmount>, AccountingAmount),
    Error,
>)
    ensures
        match r {
            Ok((known, unknown)) => {
                &&& inflation_error(states@, states@.len() as int) is None
                &&& by_outpoint(known@) == known_inflation_at(states@, bits, states@.len() as int)
                &&& unknown == (AccountingAmount {
                    atomic_value: unknown_inflation_at(states@, states@.len() as int) as u64,
                    fractional_bits: bits,
                })
            },
            Err(err) => inflation_error(states@, states@.len() as int) == Some(err),
        },
{
    let mut known: BTreeMap<OutPointKey, AccountingAmount> = BTreeMap::new();
    let mut unknown: u64 = 0;
    let mut i: usize = 0;
    while i < states.len()
        invariant
            i <= states.len(),
            inflation_error(states@, i as int) is None,
            by_outpoint(known@) == known_inflation_at(states@, bits, i as int),
            unknown == unknown_inflation_at(states@, i as int),
        decreases states.len() - i,
    {
        match &states[i] {
            OwnedState::Revealed { seal_definition, assigned_state } => {
                let outpoint = match seal_definition.outpoint() {
                    Ok(outpoint) => outpoint,
                    Err(err) => {
                        proof {
                            lemma_inflation_error_stays(states@, i + 1, states@.len() as int);
                        }
                        return Err(Error::from(err));
                    },
                };
                let amount = match assigned_state.u64() {
                    Some(amount) => amount,
                    None => {
                        proof {
                            lemma_inflation_error_stays(states@, i + 1, states@.len() as int);
                        }
                        return Err(Error::from(schema::Error::NotAllFieldsPresent));
                    },
                };
                known.insert(
                    outpoint.key(),
                    AccountingAmount::from_fractioned_atomic_value(bits, amount),
                );
            },
            OwnedState::ConfidentialSeal { assigned_state } => {
                if unknown < u64::MAX {
                    let amount = match assigned_state.u64() {
                        Some(amount) => amount,
                        None => {
                            proof {
                                lemma_inflation_error_stays(states@, i + 1, states@.len() as int);
                            }
                            return Err(Error::from(schema::Error::NotAllFieldsPresent));
                        },
                    };
                    unknown = unknown.saturating_add(amount);
                }
            },
            _ => {
                unknown = u64::MAX;
            },
        }
        i = i + 1;
    }
    Ok((known, AccountingAmount::from_fractioned_atomic_value(bits, unknown)))
}

/// Whether an ownership right is revealed and sealed to an output of a
/// witness transaction.
pub fn has_witness_seal(states: &Vec<OwnedState<value::Revealed>>) -> (r: bool)
    ensures
        r == witness_among(states@, states@.len() as int),
{
    let mut i: usize = 0;
    while i < states.len()
        invariant
            i <= states.len(),
            !witness_among(states@, i as int),
        decreases states.len() - i,
    {
        match &states[i] {
            OwnedState::Revealed { seal_definition, .. } => {
                if seal_definition.outpoint().is_err() {
                    proof {
                        lemma_witness_stays(states@, i + 1, states@.len() as int);
                    }
                    return true;
                }
            },
            _ => {},
        }
        i = i + 1;
    }
    false
}

/// Files the allocations that the ownership rights of node `node_id` give.
pub fn read_allocations(states: &Vec<OwnedState<value::Revealed>>, node_id: NodeId) -> (buckets:
    BTreeMap<OutPointKey, Vec<Allocation>>)
    ensures
        buckets_of(buckets@) == allocations_at(states@, node_id, states@.len() as int),
{
    let mut buckets: BTreeMap<OutPointKey, Vec<Allocation>> = BTreeMap::new();
    let mut i: usize = 0;
    while i < states.len()
        invariant
            i <= states.len(),
            buckets_of(buckets@) == allocations_at(states@, node_id, i as int),
        decreases states.len() - i,
    {
        match &states[i] {
            OwnedState::Revealed {
                seal_definition: seal::Revealed::TxOutpoint(outpoint),
                assigned_state,
            } => {
                let allocation = Allocation {
                    node_id,
                    index: (i % 0x1_0000) as u16,
                    outpoint: *outpoint,
                    value: *assigned_state,
                };
                file_allocation(&mut buckets, allocation);
            },
            _ => {},
        }
        i = i + 1;
    }
    buckets
}

/// Sum of the amounts that the inflation rights reveal, as far as it can
/// be represented.
pub fn known_cap(states: &Vec<OwnedState<data::Revealed>>) -> (cap: u64)
    ensures
        cap == known_cap_upto(states@, states@.len() as int),
{
    let mut cap: u64 = 0;
    let mut i: usize = 0;
    while i < states.len()
        invariant
            i <= states.len(),
            cap == known_cap_upto(states@, i as int),
        decreases states.len() - i,
    {
        let amount: u64 = match &states[i] {
            OwnedState::Revealed { assigned_state: data::Revealed::U64(amount), .. } => *amount,
            OwnedState::ConfidentialSeal { assigned_state: data::Revealed::U64(amount) } => *amount,
            _ => 0,
        };
        cap = cap.saturating_add(amount);
        i = i + 1;
    }
    cap
}

impl Genesis {
    /// Why no asset can be read from the genesis under the schema
    /// `schema_id`, if none can.
    pub fn error(&self, schema_id: SchemaId) -> (r: Option<Error>)
        ensures
            r == self.spec_error(schema_id),
    {
        if self.schema_id != schema_id {
            return Some(Error::from(schema::Error::WrongSchemaId));
        }
        let fractional_bits = match self.metadata.u8(FieldType::Precision) {
            Some(bits) => bits,
            None => {
                return Some(Error::from(schema::Error::NotAllFieldsPresent));
            },
        };
        let complete = self.metadata.u64(FieldType::IssuedSupply).is_some() && self.metadata.string(
            FieldType::Ticker,
        ).is_some() && self.metadata.string(FieldType::Name).is_some() && self.metadata.i64(
            FieldType::Timestamp,
        ).is_some();
        if !complete {
            return Some(Error::from(schema::Error::NotAllFieldsPresent));
        }
        match read_inflation(&self.inflation, fractional_bits) {
            Err(err) => {
                return Some(err);
            },
            Ok(_) => {},
        }
        if has_witness_seal(&self.assets) {
            return Some(Error::from(seal::WitnessVoutError));
        }
        None
    }
}

/// Every known inflation right carries the precision it was read at.
pub proof fn lemma_known_inflation_precision(
    states: Seq<OwnedState<data::Revealed>>,
    bits: u8,
    n: int,
)
    ensures
        forall|outpoint: OutPoint| #[trigger]
            known_inflation_at(states, bits, n).contains_key(outpoint) ==> known_inflation_at(
                states,
                bits,
                n,
            )[outpoint].fractional_bits == bits,
    decreases n,
{
    if n > 0 {
        lemma_known_inflation_precision(states, bits, n - 1);
        let before = known_inflation_at(states, bits, n - 1);
        let after = known_inflation_at(states, bits, n);
        assert forall|outpoint: OutPoint| #[trigger]
            after.contains_key(outpoint) implies after[outpoint].fractional_bits == bits by {
            if before.contains_key(outpoint) {
                assert(before[outpoint].fractional_bits == bits);
            }
        }
    }
}

/// The buckets read from ownership rights are in order.
pub proof fn lemma_allocations_wf(states: Seq<OwnedState<value::Revealed>>, node_id: NodeId, n: int)
    ensures
        buckets_wf(allocations_at(states, node_id, n)),
    decreases n,
{
    if n > 0 {
        lemma_allocations_wf(states, node_id, n - 1);
        match genesis_allocation(node_id, n - 1, states[n - 1]) {
            Some(allocation) => {
                lemma_with_allocation_wf(allocations_at(states, node_id, n - 1), allocation);
            },
            None => {},
        }
    }
}

/// What is read from a genesis is in order, whatever the genesis holds.
pub proof fn lemma_derived_wf(genesis: Genesis, date: CivilDateTime)
    ensures
        derived(genesis, date).wf(),
{
    let bits = genesis.metadata.spec_u8(FieldType::Precision).unwrap();
    lemma_known_inflation_precision(genesis.inflation@, bits, genesis.inflation@.len() as int);
    lemma_allocations_wf(
        genesis.assets@,
        NodeId(genesis.contract_id.0),
        genesis.assets@.len() as int,
    );
}

/// A genesis written under another schema than the expected one gives the
/// error of the wrong schema, whatever else it holds.
pub proof fn lemma_wrong_schema(genesis: Genesis, schema_id: SchemaId)
    requires
        genesis.schema_id != schema_id,
    ensures
        genesis.spec_error(schema_id) == Some(Error::Schema(schema::Error::WrongSchemaId)),
{
}

/// A genesis of the expected schema without a ticker gives the error of
/// the absent field.
pub proof fn lemma_missing_ticker(genesis: Genesis, schema_id: SchemaId)
    requires
        genesis.schema_id == schema_id,
        genesis.metadata.spec_string(FieldType::Ticker) is None,
    ensures
        genesis.spec_error(schema_id) == Some(Error::Schema(schema::Error::NotAllFieldsPresent)),
{
}

/// With one inflation right that is revealed, of capacity `capacity` at
/// `outpoint`, and one that is confidential, in either order, the hidden
/// inflation is without bound and the known inflation is that one right.
pub proof fn lemma_confidential_dominates(
    genesis: Genesis,
    date: CivilDateTime,
    outpoint: OutPoint,
    capacity: u64,
)
    requires
        genesis.inflation@.len() == 2,
        ({
            let revealed = OwnedState::Revealed {
                seal_definition: seal::Revealed::TxOutpoint(outpoint),
                assigned_state: data::Revealed::U64(capacity),
            };
            ||| genesis.inflation@[0] == revealed && genesis.inflation@[1] is Confidential
            ||| genesis.inflation@[1] == revealed && genesis.inflation@[0] is Confidential
        }),
    ensures
        derived(genesis, date).unknown_inflation.atomic_value == u64::MAX,
        derived(genesis, date).known_inflation == Map::<OutPoint, AccountingAmount>::empty().insert(
            outpoint,
            AccountingAmount {
                atomic_value: capacity,
                fractional_bits: derived(genesis, date).fractional_bits,
            },
        ),
{
    let bits = genesis.metadata.spec_u8(FieldType::Precision).unwrap();
    reveal_with_fuel(hidden_among, 3);
    reveal_with_fuel(known_inflation_at, 3);
    let right = AccountingAmount { atomic_value: capacity, fractional_bits: bits };
    assert(derived(genesis, date).known_inflation =~= Map::<
        OutPoint,
        AccountingAmount,
    >::empty().insert(outpoint, right));
}

/// Where a genesis has no inflation right, the cap of the supply is what
/// the genesis issues.
pub proof fn lemma_fixed_supply(genesis: Genesis, date: CivilDateTime)
    requires
        genesis.inflation@.len() == 0,
    ensures
        derived(genesis, date).supply.max_cap == derived(genesis, date).supply.known_circulating,
        derived(genesis, date).supply.max_cap.atomic_value == genesis.metadata.spec_u64(
            FieldType::IssuedSupply,
        ).unwrap(),
{
}

/// Where the one ownership right of a genesis is revealed, at `outpoint`
/// with `amount`, the bucket of `outpoint` is the one bucket, and it holds
/// the one allocation of that amount, of the node that the contract
/// identifier names, at place 0.
pub proof fn lemma_single_allocation(
    genesis: Genesis,
    date: CivilDateTime,
    outpoint: OutPoint,
    amount: value::Revealed,
)
    requires
        genesis.assets@.len() == 1,
        genesis.assets@[0] == (OwnedState::Revealed {
            seal_definition: seal::Revealed::TxOutpoint(outpoint),
            assigned_state: amount,
        }),
    ensures
        derived(genesis, date).known_allocations == Map::<
            OutPoint,
            Seq<Allocation>,
        >::empty().insert(
            outpoint,
            seq![
                Allocation {
                    node_id: NodeId(genesis.contract_id.0),
                    index: 0,
                    outpoint,
                    value: amount,
                },
            ],
        ),
{
    reveal_with_fuel(allocations_at, 2);
}

/// Every ownership right that gives an allocation has it filed under its
/// outpoint.
pub proof fn lemma_allocations_complete(
    states: Seq<OwnedState<value::Revealed>>,
    node_id: NodeId,
    n: int,
    i: int,
)
    requires
        0 <= i < n,
        genesis_allocation(node_id, i, states[i]) is Some,
    ensures
        ({
            let allocation = genesis_allocation(node_id, i, states[i]).unwrap();
            let buckets = allocations_at(states, node_id, n);
            buckets.contains_key(allocation.outpoint) && buckets[allocation.outpoint].contains(
                allocation,
            )
        }),
    decreases n,
{
    let allocation = genesis_allocation(node_id, i, states[i]).unwrap();
    let before = allocations_at(states, node_id, n - 1);
    if i < n - 1 {
        lemma_allocations_complete(states, node_id, n - 1, i);
        let k = choose|k: int|
            0 <= k < before[allocation.outpoint].len() && before[allocation.outpoint][k]
                == allocation;
        match genesis_allocation(node_id, n - 1, states[n - 1]) {
            Some(last) => {
                let after = with_allocation(before, last);
                assert(after[allocation.outpoint][k] == allocation);
            },
            None => {},
        }
    } else {
        let bucket = bucket_of(before, allocation.outpoint);
        if !bucket.contains(allocation) {
            assert(bucket.push(allocation)[bucket.len() as int] == allocation);
        }
    }
}

/// Every allocation in a bucket was given by one of the ownership rights.
pub proof fn lemma_allocations_sound(
    states: Seq<OwnedState<value::Revealed>>,
    node_id: NodeId,
    n: int,
    outpoint: OutPoint,
    k: int,
)
    requires
        allocations_at(states, node_id, n).contains_key(outpoint),
        0 <= k < allocations_at(states, node_id, n)[outpoint].len(),
    ensures
        exists|i: int|
            0 <= i < n && #[trigger] genesis_allocation(node_id, i, states[i]) == Some(
                allocations_at(states, node_id, n)[outpoint][k],
            ),
    decreases n,
{
    if n > 0 {
        let before = allocations_at(states, node_id, n - 1);
        let entry = allocations_at(states, node_id, n)[outpoint][k];
        let last = genesis_allocation(node_id, n - 1, states[n - 1]);
        if last != Some(entry) {
            assert(before.contains_key(outpoint));
            assert(k < before[outpoint].len() && before[outpoint][k] == entry);
            lemma_allocations_sound(states, node_id, n - 1, outpoint, k);
        }
    }
}

/// The known inflation rights are bound to the outputs of the revealed
/// states with an amount, and to no others.
pub proof fn lemma_known_inflation_outputs(
    states: Seq<OwnedState<data::Revealed>>,
    bits: u8,
    n: int,
    outpoint: OutPoint,
)
    ensures
        known_inflation_at(states, bits, n).contains_key(outpoint) <==> exists|i: int|
            0 <= i < n && #[trigger] known_right(states[i]) == Some(outpoint),
    decreases n,
{
    if n > 0 {
        lemma_known_inflation_outputs(states, bits, n - 1, outpoint);
        if known_right(states[n - 1]) != Some(outpoint) && known_inflation_at(
            states,
            bits,
            n,
        ).contains_key(outpoint) {
            let i = choose|i: int|
                0 <= i < n - 1 && #[trigger] known_right(states[i]) == Some(outpoint);
            assert(known_right(states[i]) == Some(outpoint));
        }
    }
}

/// Whether the state hides its seal and reveals an amount.
pub open spec fn partially_confidential(state: OwnedState<data::Revealed>) -> bool {
    state matches OwnedState::ConfidentialSeal { assigned_state } && assigned_state.spec_u64()
        is Some
}

/// Where every inflation right hides its seal and reveals an amount, the
/// reading does not stop, no inflation right is known, and the hidden
/// inflation is the sum of the amounts, or the greatest amount where the
/// sum is beyond it: it saturates.
pub proof fn lemma_partial_inflation_saturates(
    states: Seq<OwnedState<data::Revealed>>,
    bits: u8,
    n: int,
)
    requires
        0 <= n <= states.len(),
        forall|i: int| 0 <= i < n ==> partially_confidential(#[trigger] states[i]),
    ensures
        inflation_error(states, n) is None,
        known_inflation_at(states, bits, n) == Map::<OutPoint, AccountingAmount>::empty(),
        unknown_inflation_at(states, n) == if partial_sum(states, n) >= u64::MAX {
            u64::MAX as int
        } else {
            partial_sum(states, n)
        },
        known_cap_upto(states, n) == unknown_inflation_at(states, n),
    decreases n,
{
    if n > 0 {
        lemma_partial_inflation_saturates(states, bits, n - 1);
        assert(partially_confidential(states[n - 1]));
        lemma_partial_sum_is_known_cap(states, n);
    }
}

/// Where every inflation right hides its seal, the amounts behind hidden
/// seals are all the amounts that are revealed.
pub proof fn lemma_partial_sum_is_known_cap(states: Seq<OwnedState<data::Revealed>>, n: int)
    requires
        0 <= n <= states.len(),
        forall|i: int| 0 <= i < n ==> partially_confidential(#[trigger] states[i]),
    ensures
        !hidden_among(states, n),
        partial_sum(states, n) == known_cap_at(states, n),
    decreases n,
{
    if n > 0 {
        lemma_partial_sum_is_known_cap(states, n - 1);
        assert(partially_confidential(states[n - 1]));
    }
}

} // verus!