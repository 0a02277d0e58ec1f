use lnpbp::chain::Chain;
use rgb_fungible::amount::{AccountingAmount, AccountingValue};
use rgb_fungible::asset::{Allocation, Asset, Issue, Supply};
use rgb_fungible::data;
use rgb_fungible::date::CivilDateTime;
use rgb_fungible::genesis::{Genesis, Metadata, MetadataField, Transition};
use rgb_fungible::id::{ContractId, Hash256, NodeId, OutPoint, SchemaId, Txid};
use rgb_fungible::schema::FieldType;
use rgb_fungible::value;

fn id(n: u128) -> Hash256 {
    Hash256 { hi: 0, lo: n }
}

fn outpoint(n: u128, vout: u32) -> OutPoint {
    OutPoint { txid: Txid(id(n)), vout }
}

fn revealed(amount: u64) -> value::Revealed {
    value::Revealed { value: amount, blinding: id(99) }
}

fn field(field_type: FieldType, value: data::Revealed) -> MetadataField {
    MetadataField { field_type, value }
}

fn plain_asset(bits: u8) -> Asset {
    let genesis = Genesis {
        schema_id: SchemaId(id(1)),
        contract_id: ContractId(id(2)),
        node_id: NodeId(id(2)),
        chain: Chain::Testnet3,
        metadata: Metadata {
            fields: vec![
                field(FieldType::Ticker, data::Revealed::String(String::from("TST"))),
                field(FieldType::Name, data::Revealed::String(String::from("Test"))),
                field(FieldType::Precision, data::Revealed::U8(bits)),
                field(FieldType::IssuedSupply, data::Revealed::U64(1_000)),
                field(FieldType::Timestamp, data::Revealed::I64(0)),
            ],
        },
        inflation: vec![],
        assets: vec![],
    };
    Asset::try_from(genesis, SchemaId(id(1))).unwrap()
}

#[test]
fn allocations_is_absent_without_bucket() {
    let asset = plain_asset(8);
    assert!(asset.allocations(&outpoint(5, 0)).is_none());
    assert!(asset.known_allocations().is_empty());
}

#[test]
fn add_allocation_files_under_outpoint() {
    let mut asset = plain_asset(8);
    let o = outpoint(5, 1);
    assert!(asset.add_allocation(o, NodeId(id(7)), 3, revealed(50)));
    let bucket = asset.allocations(&o).unwrap();
    assert_eq!(
        bucket,
        &vec![Allocation { node_id: NodeId(id(7)), index: 3, outpoint: o, value: revealed(50) }]
    );
    assert!(asset.allocations(&outpoint(5, 0)).is_none());
}

#[test]
fn add_allocation_twice_is_idempotent() {
    let mut asset = plain_asset(8);
    let o = outpoint(5, 1);
    assert!(asset.add_allocation(o, NodeId(id(7)), 3, revealed(50)));
    assert!(!asset.add_allocation(o, NodeId(id(7)), 3, revealed(50)));
    assert_eq!(asset.allocations(&o).unwrap().len(), 1);
}

#[test]
fn add_allocation_keeps_distinct_entries_in_order() {
    let mut asset = plain_asset(8);
    let o = outpoint(5, 1);
    assert!(asset.add_allocation(o, NodeId(id(7)), 0, revealed(50)));
    assert!(asset.add_allocation(o, NodeId(id(7)), 1, revealed(50)));
    assert!(asset.add_allocation(o, NodeId(id(8)), 0, revealed(50)));
    assert!(asset.add_allocation(o, NodeId(id(7)), 0, revealed(51)));
    let bucket = asset.allocations(&o).unwrap();
    assert_eq!(bucket.len(), 4);
    assert_eq!(bucket[0].index, 0);
    assert_eq!(bucket[1].index, 1);
    assert_eq!(bucket[2].node_id, NodeId(id(8)));
    assert_eq!(bucket[3].value, revealed(51));
}

#[test]
fn add_then_remove_restores_bucket() {
    let mut asset = plain_asset(8);
    let o = outpoint(5, 1);
    assert!(asset.add_allocation(o, NodeId(id(7)), 0, revealed(10)));
    let before = asset.allocations(&o).unwrap().clone();
    assert!(asset.add_allocation(o, NodeId(id(7)), 1, revealed(20)));
    assert_eq!(asset.allocations(&o).unwrap().len(), 2);
    assert!(asset.remove_allocation(o, NodeId(id(7)), 1, revealed(20)));
    assert_eq!(asset.allocations(&o).unwrap(), &before);
}

#[test]
fn remove_allocation_of_absent_entry_reports_nothing() {
    let mut asset = plain_asset(8);
    let o = outpoint(5, 1);
    assert!(asset.add_allocation(o, NodeId(id(7)), 0, revealed(10)));
    assert!(!asset.remove_allocation(o, NodeId(id(7)), 1, revealed(10)));
    assert!(!asset.remove_allocation(o, NodeId(id(7)), 0, revealed(11)));
    assert_eq!(asset.allocations(&o).unwrap().len(), 1);
}

#[test]
fn remove_allocation_leaves_empty_bucket_in_place() {
    let mut asset = plain_asset(8);
    let o = outpoint(5, 1);
    assert!(asset.add_allocation(o, NodeId(id(7)), 0, revealed(10)));
    assert!(asset.remove_allocation(o, NodeId(id(7)), 0, revealed(10)));
    let bucket = asset.allocations(&o);
    assert!(bucket.is_some());
    assert!(bucket.unwrap().is_empty());
}

#[test]
fn remove_allocation_makes_bucket_for_unknown_outpoint() {
    let mut asset = plain_asset(8);
    let o = outpoint(6, 0);
    assert!(!asset.remove_allocation(o, NodeId(id(7)), 0, revealed(10)));
    assert_eq!(asset.allocations(&o), Some(&vec![]));
}

#[test]
fn remove_allocation_takes_first_of_the_bucket_only() {
    let mut asset = plain_asset(8);
    let o = outpoint(5, 1);
    assert!(asset.add_allocation(o, NodeId(id(7)), 0, revealed(10)));
    assert!(asset.add_allocation(o, NodeId(id(7)), 1, revealed(10)));
    assert!(asset.add_allocation(o, NodeId(id(7)), 2, revealed(10)));
    assert!(asset.remove_allocation(o, NodeId(id(7)), 1, revealed(10)));
    let bucket = asset.allocations(&o).unwrap();
    assert_eq!(bucket.len(), 2);
    assert_eq!(bucket[0].index, 0);
    assert_eq!(bucket[1].index, 2);
}

#[test]
fn buckets_are_ordered_by_outpoint() {
    let mut asset = plain_asset(8);
    assert!(asset.add_allocation(outpoint(9, 0), NodeId(id(7)), 0, revealed(1)));
    assert!(asset.add_allocation(outpoint(3, 7), NodeId(id(7)), 1, revealed(2)));
    assert!(asset.add_allocation(outpoint(3, 2), NodeId(id(7)), 2, revealed(3)));
    let high = OutPoint { txid: Txid(Hash256 { hi: 1, lo: 0 }), vout: 0 };
    assert!(asset.add_allocation(high, NodeId(id(7)), 3, revealed(4)));
    let keys: Vec<OutPoint> =
        asset.known_allocations().keys().map(|k| OutPoint::from_key(*k)).collect();
    assert_eq!(keys, vec![outpoint(3, 2), outpoint(3, 7), outpoint(9, 0), high]);
}

#[test]
fn outpoint_key_round_trips() {
    let o = OutPoint { txid: Txid(Hash256 { hi: 11, lo: 22 }), vout: 33 };
    assert_eq!(o.key(), (11, 22, 33));
    assert_eq!(OutPoint::from_key(o.key()), o);
}

#[test]
fn allocation_mutations_leave_the_rest_of_the_asset() {
    let mut asset = plain_asset(8);
    let before = asset.clone();
    assert!(asset.add_allocation(outpoint(5, 1), NodeId(id(7)), 0, revealed(10)));
    assert_eq!(asset.id(), before.id());
    assert_eq!(asset.ticker(), before.ticker());
    assert_eq!(asset.name(), before.name());
    assert_eq!(asset.supply(), before.supply());
    assert_eq!(asset.known_issues(), before.known_issues());
    assert_eq!(asset.known_inflation(), before.known_inflation());
    assert_eq!(asset.unknown_inflation(), before.unknown_inflation());
    assert_eq!(asset.date(), before.date());
    assert_eq!(asset.chain(), before.chain());
}

#[test]
fn assets_compare_by_every_part() {
    let mut asset = plain_asset(8);
    let before = asset.clone();
    assert_eq!(asset, before);
    assert_eq!(asset, plain_asset(8));
    assert_ne!(asset, plain_asset(7));
    assert!(asset.add_allocation(outpoint(5, 1), NodeId(id(7)), 0, revealed(10)));
    assert_ne!(asset, before);
    assert!(asset.remove_allocation(outpoint(5, 1), NodeId(id(7)), 0, revealed(10)));
    // the emptied bucket stays, so the asset is not what it was
    assert_ne!(asset, before);
}

#[test]
fn clone_copies_every_part() {
    let mut asset = plain_asset(8);
    assert!(asset.add_allocation(outpoint(5, 1), NodeId(id(7)), 0, revealed(10)));
    let copy = asset.clone();
    assert_eq!(copy, asset);
    assert_eq!(copy.id(), asset.id());
    assert_eq!(copy.ticker(), asset.ticker());
    assert_eq!(copy.description(), asset.description());
    assert_eq!(copy.fractional_bits(), asset.fractional_bits());
    assert_eq!(copy.known_allocations(), asset.known_allocations());
    assert_eq!(copy.known_issues(), asset.known_issues());
}

/// Open design gap: how a later issue changes the supply has no rule yet,
/// so the asset gives no supply for any transition.
#[test]
fn add_issue_is_an_open_design_gap() {
    let asset = plain_asset(8);
    let transition = Transition {
        node_id: NodeId(id(40)),
        metadata: Metadata {
            fields: vec![field(FieldType::IssuedSupply, data::Revealed::U64(500))],
        },
        inflation: vec![],
        assets: vec![],
    };
    assert_eq!(asset.add_issue(&transition), None);
    assert_eq!(asset.supply().known_circulating.atomic_value(), 1_000);
}

#[test]
fn total_circulating_needs_all_issues_known() {
    let known = AccountingAmount::from_fractioned_atomic_value(8, 700);
    let cap = AccountingAmount::from_fractioned_atomic_value(8, 1_000);
    let mut supply = Supply { known_circulating: known, is_issued_known: Some(true), max_cap: cap };
    assert_eq!(supply.total_circulating(), Some(known));
    supply.is_issued_known = Some(false);
    assert_eq!(supply.total_circulating(), None);
    supply.is_issued_known = None;
    assert_eq!(supply.total_circulating(), None);
}

#[test]
fn default_supply_is_zero_and_undetermined() {
    let supply = Supply::default();
    assert_eq!(supply.known_circulating, AccountingAmount::default());
    assert_eq!(supply.max_cap, AccountingAmount::default());
    assert_eq!(supply.is_issued_known, None);
    assert_eq!(supply.total_circulating(), None);
}

#[test]
fn issue_is_primary_without_origin() {
    let amount = AccountingAmount::from_fractioned_atomic_value(8, 700);
    let primary = Issue { id: NodeId(id(2)), asset_id: ContractId(id(2)), amount, origin: None };
    assert!(primary.is_primary());
    assert!(!primary.is_secondary());
    let secondary = Issue {
        id: NodeId(id(3)),
        asset_id: ContractId(id(2)),
        amount,
        origin: Some(outpoint(4, 0)),
    };
    assert!(!secondary.is_primary());
    assert!(secondary.is_secondary());
}

#[test]
fn amount_from_asset_atomic_value_takes_asset_precision() {
    let asset = plain_asset(5);
    let a = AccountingAmount::from_asset_atomic_value(&asset, 77);
    assert_eq!(a, AccountingAmount::from_fractioned_atomic_value(5, 77));
}

#[test]
fn amount_from_asset_accounting_value_adds_scaled_fraction_unshifted() {
    // 1.50 at precision 2: whole 1, fraction 50 of 100
    let asset = plain_asset(2);
    let value = AccountingValue { whole: 1, fraction: 50 };
    let a = AccountingAmount::from_asset_accounting_value(&asset, value);
    assert_eq!(a, AccountingAmount::from_fractioned_atomic_value(2, 51));
    assert_eq!(a, AccountingAmount::from_fractioned_accounting_value(2, value));
    let five = plain_asset(5);
    let b = AccountingAmount::from_asset_accounting_value(
        &five,
        AccountingValue { whole: 3, fraction: 9 },
    );
    assert_eq!(b, AccountingAmount::from_fractioned_atomic_value(5, 12));
    let zero = plain_asset(0);
    let c = AccountingAmount::from_asset_accounting_value(
        &zero,
        AccountingValue { whole: 3, fraction: 0 },
    );
    assert_eq!(c, AccountingAmount::from_fractioned_atomic_value(0, 3));
}

#[test]
fn epoch_is_the_date_of_timestamp_zero() {
    let asset = plain_asset(8);
    assert_eq!(
        asset.date(),
        &CivilDateTime { year: 1970, month: 1, day: 1, hour: 0, minute: 0, second: 0 }
    );
}
