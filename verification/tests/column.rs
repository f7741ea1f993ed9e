//! End-to-end tests of the column gadget against the real proof-system
//! crates: allocation in blank and recording mode, per-layer lookup, and the
//! poseidon column digest.

use blstrs::Scalar as Fr;
use column_gadget::{Column, ColumnCS, PublicParams, SynthesisFailure, VanillaColumn};
use filecoin_hashers::poseidon::PoseidonDomain;
use filecoin_hashers::{POSEIDON_CONSTANTS_11, POSEIDON_CONSTANTS_2};
use neptune::Poseidon;

fn vanilla_from_u64(vals: &[u64]) -> VanillaColumn {
    VanillaColumn {
        rows: vals.iter().map(|v| PoseidonDomain::from(Fr::from(*v))).collect(),
    }
}

fn native_digest_two(vals: [Fr; 2]) -> Fr {
    let mut p = Poseidon::new_with_preimage(&vals, &*POSEIDON_CONSTANTS_2);
    p.hash()
}

fn native_digest_eleven(vals: [Fr; 11]) -> Fr {
    let mut p = Poseidon::new_with_preimage(&vals, &*POSEIDON_CONSTANTS_11);
    p.hash()
}

#[test]
fn empty_column_allocates_blank_unassigned() {
    for layers in [1usize, 2, 3, 11, 40] {
        let mut cs = ColumnCS::new_blank();
        let column = Column::empty(&PublicParams { layers });
        let allocated = column.allocate(&mut cs).expect("blank allocation must succeed");
        assert_eq!(allocated.len(), layers);
        for layer in 1..=layers {
            assert!(allocated.get_value(layer).value().is_none());
        }
    }
}

#[test]
fn conversion_preserves_values_in_order() {
    let vals = [7u64, 3, 3, 99, 0, 1];
    let column = Column::from_vanilla(vanilla_from_u64(&vals));
    let mut cs = ColumnCS::new_concrete();
    let allocated = column.allocate(&mut cs).expect("allocation of full column must succeed");
    assert_eq!(allocated.len(), vals.len());
    for (i, v) in vals.iter().enumerate() {
        assert_eq!(allocated.get_value(i + 1).value(), Some(Fr::from(*v)));
    }
}

#[test]
fn layer_lookup_matches_allocation_order() {
    // The same layer index must pick the same position whatever the length.
    for layers in [2usize, 5, 11] {
        let vals: Vec<u64> = (10..10 + layers as u64).collect();
        let column = Column::from_vanilla(vanilla_from_u64(&vals));
        let mut cs = ColumnCS::new_concrete();
        let allocated = column.allocate(&mut cs).expect("allocation must succeed");
        assert_eq!(allocated.get_value(2).value(), Some(Fr::from(11u64)));
        for layer in 1..=layers {
            assert_eq!(
                allocated.get_value(layer).value(),
                Some(Fr::from(vals[layer - 1])),
            );
        }
    }
}

#[test]
fn missing_entry_fails_in_recording_mode() {
    let mut cs = ColumnCS::new_concrete();
    let column = Column::empty(&PublicParams { layers: 2 });
    let err = column.allocate(&mut cs).err().expect("allocation must fail");
    assert!(matches!(err, SynthesisFailure::AssignmentMissing));
}

#[test]
fn missing_entry_succeeds_in_blank_mode() {
    let mut cs = ColumnCS::new_blank();
    let column = Column::empty(&PublicParams { layers: 2 });
    assert!(column.allocate(&mut cs).is_ok());
}

#[test]
fn same_values_hash_to_same_digest() {
    let vals = [4u64, 25];
    let mut first = ColumnCS::new_concrete();
    let a = Column::from_vanilla(vanilla_from_u64(&vals))
        .allocate(&mut first)
        .expect("allocation must succeed");
    let digest_a = a.hash(&mut first).expect("hash must succeed").value();

    let mut second = ColumnCS::new_concrete();
    let b = Column::from_vanilla(vanilla_from_u64(&vals))
        .allocate(&mut second)
        .expect("allocation must succeed");
    let digest_b = b.hash(&mut second).expect("hash must succeed").value();

    assert!(digest_a.is_some());
    assert_eq!(digest_a, digest_b);
}

#[test]
fn permuted_values_hash_to_different_digest() {
    let mut first = ColumnCS::new_concrete();
    let a = Column::from_vanilla(vanilla_from_u64(&[4, 25]))
        .allocate(&mut first)
        .expect("allocation must succeed");
    let digest_a = a.hash(&mut first).expect("hash must succeed").value();

    let mut second = ColumnCS::new_concrete();
    let b = Column::from_vanilla(vanilla_from_u64(&[25, 4]))
        .allocate(&mut second)
        .expect("allocation must succeed");
    let digest_b = b.hash(&mut second).expect("hash must succeed").value();

    assert_ne!(digest_a, digest_b);
}

#[test]
fn circuit_digest_matches_native_poseidon_two() {
    let mut cs = ColumnCS::new_concrete();
    let allocated = Column::from_vanilla(vanilla_from_u64(&[8, 13]))
        .allocate(&mut cs)
        .expect("allocation must succeed");
    let digest = allocated.hash(&mut cs).expect("hash must succeed").value();
    assert_eq!(digest, Some(native_digest_two([Fr::from(8u64), Fr::from(13u64)])));
}

#[test]
fn circuit_digest_matches_native_poseidon_eleven() {
    let vals: Vec<u64> = (1..=11).collect();
    let mut cs = ColumnCS::new_concrete();
    let allocated = Column::from_vanilla(vanilla_from_u64(&vals))
        .allocate(&mut cs)
        .expect("allocation must succeed");
    let digest = allocated.hash(&mut cs).expect("hash must succeed").value();

    let mut native: [Fr; 11] = [Fr::from(0u64); 11];
    for (i, v) in vals.iter().enumerate() {
        native[i] = Fr::from(*v);
    }
    assert_eq!(digest, Some(native_digest_eleven(native)));
}

#[test]
fn blank_hash_succeeds_unassigned() {
    let mut cs = ColumnCS::new_blank();
    let allocated = Column::empty(&PublicParams { layers: 11 })
        .allocate(&mut cs)
        .expect("blank allocation must succeed");
    let digest = allocated.hash(&mut cs).expect("blank hash must succeed");
    assert!(digest.value().is_none());
}

#[test]
fn many_columns_share_one_constraint_system() {
    let mut cs = ColumnCS::new_concrete();
    let a = Column::from_vanilla(vanilla_from_u64(&[1, 2]))
        .allocate(&mut cs)
        .expect("first allocation must succeed");
    let b = Column::from_vanilla(vanilla_from_u64(&[3, 4]))
        .allocate(&mut cs)
        .expect("second allocation must succeed");
    let digest_a = a.hash(&mut cs).expect("first hash must succeed").value();
    let digest_b = b.hash(&mut cs).expect("second hash must succeed").value();
    assert_eq!(digest_a, Some(native_digest_two([Fr::from(1u64), Fr::from(2u64)])));
    assert_eq!(digest_b, Some(native_digest_two([Fr::from(3u64), Fr::from(4u64)])));
}

#[test]
fn conversion_round_trips_domain_bytes() {
    // A domain value decodes to the field element it was packed from, so the
    // gadget sees exactly what the encoding pipeline produced.
    let fr = Fr::from(123456789u64);
    let column = Column::from_vanilla(VanillaColumn { rows: vec![PoseidonDomain::from(fr), PoseidonDomain::from(fr)] });
    let mut cs = ColumnCS::new_concrete();
    let allocated = column.allocate(&mut cs).expect("allocation must succeed");
    assert_eq!(allocated.get_value(1).value(), Some(fr));
    assert_eq!(allocated.get_value(2).value(), Some(fr));
}
