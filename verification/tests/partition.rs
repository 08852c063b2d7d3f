//! The disjoint equality partition: transitive merging, and independence
//! of the input order up to permutation of the classes.

use composite_proof_system::meta::{EqualWitnesses, MetaStatements};

fn class_as_sorted(e: &EqualWitnesses) -> Vec<(usize, usize)> {
    let mut v = e.refs.clone();
    v.sort();
    v
}

fn partition_as_sorted(classes: &[EqualWitnesses]) -> Vec<Vec<(usize, usize)>> {
    let mut v: Vec<Vec<(usize, usize)>> = classes.iter().map(class_as_sorted).collect();
    v.sort();
    v
}

fn meta_of(sets: &[Vec<(usize, usize)>]) -> MetaStatements {
    let mut meta = MetaStatements::new();
    for s in sets {
        meta.add_witness_equality(EqualWitnesses::new(s.clone()));
    }
    meta
}

#[test]
fn partition_merges_overlapping_sets_transitively() {
    let sets = vec![
        vec![(0usize, 0usize), (1, 0)],
        vec![(1, 0), (2, 3)],
        vec![(4, 1), (5, 2)],
        vec![(2, 3), (6, 0)],
    ];
    let classes = meta_of(&sets).disjoint_witness_equalities();
    let got = partition_as_sorted(&classes);
    let expected = vec![
        vec![(0usize, 0usize), (1, 0), (2, 3), (6, 0)],
        vec![(4usize, 1usize), (5, 2)],
    ];
    assert_eq!(got, expected);
}

#[test]
fn partition_ignores_input_order() {
    let sets = vec![
        vec![(0usize, 0usize), (1, 0)],
        vec![(1, 0), (2, 3)],
        vec![(4, 1), (5, 2)],
        vec![(2, 3), (6, 0)],
        vec![(5, 2), (7, 7)],
    ];
    let forward = partition_as_sorted(&meta_of(&sets).disjoint_witness_equalities());
    let mut reversed_sets = sets.clone();
    reversed_sets.reverse();
    let reversed = partition_as_sorted(&meta_of(&reversed_sets).disjoint_witness_equalities());
    assert_eq!(forward, reversed);

    let shuffled = vec![
        sets[2].clone(),
        sets[4].clone(),
        sets[0].clone(),
        sets[3].clone(),
        sets[1].clone(),
    ];
    let shuffled_out = partition_as_sorted(&meta_of(&shuffled).disjoint_witness_equalities());
    assert_eq!(forward, shuffled_out);
}

#[test]
fn partition_of_disjoint_sets_is_the_sets_themselves() {
    let sets = vec![
        vec![(0usize, 0usize), (1, 0)],
        vec![(2, 0), (3, 0)],
    ];
    let classes = meta_of(&sets).disjoint_witness_equalities();
    assert_eq!(partition_as_sorted(&classes), sets);
}
