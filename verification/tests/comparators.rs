use std::cmp::Ordering;
use std::collections::HashMap;

use compare_inner::categorical::{CategoricalChunked, RevMapping};
use compare_inner::chunked::{Chunk, ChunkedArray};
use compare_inner::compare::{fallback, InnerComparator, PartialEqInner, PartialOrdInner};
use compare_inner::element::Fp;

fn chunk_plain_i64(vals: &[i64]) -> Chunk<i64> {
    Chunk { values: vals.to_vec(), validity: None }
}

fn chunk_nullable_i64(vals: &[Option<i64>]) -> Chunk<i64> {
    Chunk {
        values: vals.iter().map(|v| v.unwrap_or(0)).collect(),
        validity: Some(vals.iter().map(|v| v.is_some()).collect()),
    }
}

fn col_i64(vals: &[Option<i64>]) -> ChunkedArray<i64> {
    ChunkedArray { chunks: vec![chunk_nullable_i64(vals)] }
}

fn fp(x: f64) -> Fp {
    if x.is_nan() {
        return Fp { nan: true, key: 0 };
    }
    let x = x + 0.0; // folds -0.0 into +0.0, which it equals
    let mut k = x.to_bits() as i64;
    k ^= (((k >> 63) as u64) >> 1) as i64;
    Fp { nan: false, key: k }
}

fn col_fp(vals: &[Option<f64>]) -> ChunkedArray<Fp> {
    ChunkedArray {
        chunks: vec![Chunk {
            values: vals.iter().map(|v| fp(v.unwrap_or(0.0))).collect(),
            validity: Some(vals.iter().map(|v| v.is_some()).collect()),
        }],
    }
}

fn dict(words: &[&str]) -> Vec<Vec<u8>> {
    words.iter().map(|w| w.as_bytes().to_vec()).collect()
}

fn codes(vals: &[Option<u32>]) -> ChunkedArray<u32> {
    ChunkedArray {
        chunks: vec![Chunk {
            values: vals.iter().map(|v| v.unwrap_or(0)).collect(),
            validity: Some(vals.iter().map(|v| v.is_some()).collect()),
        }],
    }
}

#[test]
fn scenario_ints_with_nulls() {
    let ca = col_i64(&[Some(1), None, Some(3), None]);
    let eq = ca.into_partial_eq_inner();
    let ord = ca.into_partial_ord_inner();
    assert_eq!(ord.cmp_element_unchecked(0, 2), Ordering::Less);
    assert!(eq.eq_element_unchecked(1, 3));
    assert_eq!(ord.cmp_element_unchecked(1, 0), Ordering::Less);
}

#[test]
fn scenario_floats_nan() {
    let ca = col_fp(&[Some(f64::NAN), Some(1.0), Some(2.0)]);
    let eq = ca.into_partial_eq_inner();
    let ord = ca.into_partial_ord_inner();
    assert_eq!(ord.cmp_element_unchecked(0, 1), Ordering::Less);
    assert_eq!(ord.cmp_element_unchecked(1, 0), Ordering::Greater);
    assert!(!eq.eq_element_unchecked(0, 0));
    assert_eq!(ord.cmp_element_unchecked(0, 0), Ordering::Less);
}

#[test]
fn scenario_categorical_local() {
    let ca = CategoricalChunked {
        cats: codes(&[Some(0), Some(1), Some(0)]),
        rev_map: RevMapping::Local(dict(&["a", "b"])),
    };
    let eq = ca.into_partial_eq_inner();
    let ord = ca.into_partial_ord_inner();
    assert!(eq.eq_element_unchecked(0, 2));
    assert_eq!(ord.cmp_element_unchecked(0, 1), Ordering::Less);
}

#[test]
fn null_ordering() {
    let ca = col_i64(&[None, Some(7), None]);
    let eq = ca.into_partial_eq_inner();
    let ord = ca.into_partial_ord_inner();
    assert!(eq.eq_element_unchecked(0, 2));
    assert!(!eq.eq_element_unchecked(0, 1));
    assert!(!eq.eq_element_unchecked(1, 2));
    assert_eq!(ord.cmp_element_unchecked(0, 1), Ordering::Less);
    assert_eq!(ord.cmp_element_unchecked(1, 0), Ordering::Greater);
    assert_eq!(ord.cmp_element_unchecked(0, 2), Ordering::Equal);
}

#[test]
fn natural_order_ints_no_nulls() {
    let ca = ChunkedArray { chunks: vec![chunk_plain_i64(&[3, 1, 2, 2])] };
    let eq = ca.into_partial_eq_inner();
    let ord = ca.into_partial_ord_inner();
    assert!(eq.eq_element_unchecked(2, 3));
    assert!(!eq.eq_element_unchecked(0, 1));
    assert_eq!(ord.cmp_element_unchecked(1, 0), Ordering::Less);
    assert_eq!(ord.cmp_element_unchecked(0, 2), Ordering::Greater);
    assert_eq!(ord.cmp_element_unchecked(2, 3), Ordering::Equal);
}

#[test]
fn multi_chunk_no_nulls() {
    let ca = ChunkedArray {
        chunks: vec![chunk_plain_i64(&[4, 4]), chunk_plain_i64(&[1])],
    };
    assert_eq!(ca.len(), 3);
    let eq = ca.into_partial_eq_inner();
    let ord = ca.into_partial_ord_inner();
    assert!(eq.eq_element_unchecked(0, 1));
    assert!(!eq.eq_element_unchecked(0, 2));
    assert_eq!(ord.cmp_element_unchecked(2, 0), Ordering::Less);
    assert_eq!(ord.cmp_element_unchecked(1, 2), Ordering::Greater);
}

#[test]
fn rechunk_independence() {
    let vals = [Some(5), None, Some(2), Some(2), None, Some(9)];
    let one = col_i64(&vals);
    let three = ChunkedArray {
        chunks: vec![
            chunk_nullable_i64(&vals[0..2]),
            chunk_nullable_i64(&vals[2..3]),
            chunk_nullable_i64(&vals[3..6]),
        ],
    };
    assert_eq!(one.len(), three.len());
    let eq_one = one.into_partial_eq_inner();
    let eq_three = three.into_partial_eq_inner();
    let ord_one = one.into_partial_ord_inner();
    let ord_three = three.into_partial_ord_inner();
    for i in 0..vals.len() {
        for j in 0..vals.len() {
            assert_eq!(
                eq_one.eq_element_unchecked(i, j),
                eq_three.eq_element_unchecked(i, j)
            );
            assert_eq!(
                ord_one.cmp_element_unchecked(i, j),
                ord_three.cmp_element_unchecked(i, j)
            );
        }
    }
}

#[test]
fn categorical_local_vs_global() {
    // Logical strings: ["b", "a", null, "b", "ab"].
    let local = CategoricalChunked {
        cats: codes(&[Some(0), Some(1), None, Some(0), Some(2)]),
        rev_map: RevMapping::Local(dict(&["b", "a", "ab"])),
    };
    let mut table: HashMap<u32, u32> = HashMap::new();
    table.insert(10, 2);
    table.insert(20, 1);
    table.insert(30, 3);
    let global = CategoricalChunked {
        cats: codes(&[Some(10), Some(20), None, Some(10), Some(30)]),
        rev_map: RevMapping::Global(table, dict(&["zzz", "a", "b", "ab"])),
    };
    let eq_l = local.into_partial_eq_inner();
    let eq_g = global.into_partial_eq_inner();
    let ord_l = local.into_partial_ord_inner();
    let ord_g = global.into_partial_ord_inner();
    for i in 0..5 {
        for j in 0..5 {
            assert_eq!(
                eq_l.eq_element_unchecked(i, j),
                eq_g.eq_element_unchecked(i, j)
            );
            assert_eq!(
                ord_l.cmp_element_unchecked(i, j),
                ord_g.cmp_element_unchecked(i, j)
            );
        }
    }
}

#[test]
fn categorical_lexicographic_order() {
    let ca = CategoricalChunked {
        cats: codes(&[Some(0), Some(1), Some(2), Some(3)]),
        rev_map: RevMapping::Local(dict(&["", "a", "ab", "b"])),
    };
    let eq = ca.into_partial_eq_inner();
    let ord = ca.into_partial_ord_inner();
    assert_eq!(ord.cmp_element_unchecked(0, 1), Ordering::Less);
    assert_eq!(ord.cmp_element_unchecked(1, 2), Ordering::Less);
    assert_eq!(ord.cmp_element_unchecked(2, 3), Ordering::Less);
    assert_eq!(ord.cmp_element_unchecked(3, 1), Ordering::Greater);
    assert_eq!(ord.cmp_element_unchecked(1, 1), Ordering::Equal);
    assert!(eq.eq_element_unchecked(1, 1));
    assert!(!eq.eq_element_unchecked(1, 2));
}

#[test]
fn nan_with_nulls() {
    let ca = col_fp(&[None, Some(f64::NAN), Some(1.0)]);
    let eq = ca.into_partial_eq_inner();
    let ord = ca.into_partial_ord_inner();
    assert_eq!(ord.cmp_element_unchecked(0, 1), Ordering::Less);
    assert_eq!(ord.cmp_element_unchecked(1, 0), Ordering::Greater);
    assert_eq!(ord.cmp_element_unchecked(1, 2), Ordering::Less);
    assert_eq!(ord.cmp_element_unchecked(2, 1), Ordering::Greater);
    assert!(!eq.eq_element_unchecked(1, 1));
    assert!(eq.eq_element_unchecked(0, 0));
    assert!(!eq.eq_element_unchecked(0, 1));
}

#[test]
fn layout_classification() {
    let single_all_valid = ChunkedArray {
        chunks: vec![Chunk { values: vec![1i64, 2], validity: Some(vec![true, true]) }],
    };
    assert!(matches!(
        single_all_valid.into_partial_eq_inner(),
        InnerComparator::SingleNoNull(_)
    ));
    let single_with_null = col_i64(&[Some(1), None]);
    assert!(matches!(
        single_with_null.into_partial_ord_inner(),
        InnerComparator::Single(_)
    ));
    let multi_no_null = ChunkedArray {
        chunks: vec![chunk_plain_i64(&[1]), chunk_plain_i64(&[2])],
    };
    assert!(matches!(
        multi_no_null.into_partial_eq_inner(),
        InnerComparator::MultiNoNull(_)
    ));
    let multi_with_null = ChunkedArray {
        chunks: vec![chunk_plain_i64(&[1]), chunk_nullable_i64(&[None])],
    };
    assert!(matches!(
        multi_with_null.into_partial_ord_inner(),
        InnerComparator::Multi(_)
    ));
}

#[test]
fn fallback_policy() {
    assert_eq!(fallback(&Fp { nan: true, key: 0 }), Ordering::Less);
    assert_eq!(fallback(&Fp { nan: false, key: 3 }), Ordering::Greater);
    assert_eq!(fallback(&42i64), Ordering::Greater);
}

#[test]
fn chunk_walk_get() {
    let ca = ChunkedArray {
        chunks: vec![chunk_plain_i64(&[10, 20]), chunk_nullable_i64(&[None, Some(30)])],
    };
    assert_eq!(ca.len(), 4);
    assert_eq!(ca.get_unchecked(0), Some(10));
    assert_eq!(ca.get_unchecked(1), Some(20));
    assert_eq!(ca.get_unchecked(2), None);
    assert_eq!(ca.get_unchecked(3), Some(30));
    assert_eq!(ca.value_unchecked(3), 30);
    let c = chunk_nullable_i64(&[Some(7), None]);
    assert_eq!(c.len(), 2);
    assert_eq!(c.get_unchecked(0), Some(7));
    assert_eq!(c.get_unchecked(1), None);
    assert_eq!(c.value_unchecked(0), 7);
}

#[test]
fn categorical_accessors() {
    let ca = CategoricalChunked {
        cats: codes(&[Some(0), Some(1)]),
        rev_map: RevMapping::Local(dict(&["x", "y"])),
    };
    assert_eq!(ca.logical().len(), 2);
    assert!(matches!(ca.get_rev_map(), RevMapping::Local(_)));
}

#[test]
fn float_equality_and_order() {
    let ca = col_fp(&[Some(1.5), Some(1.5), Some(2.0), Some(-3.25), Some(0.0), Some(-0.0)]);
    let eq = ca.into_partial_eq_inner();
    let ord = ca.into_partial_ord_inner();
    assert!(eq.eq_element_unchecked(0, 1));
    assert!(eq.eq_element_unchecked(4, 5));
    assert_eq!(ord.cmp_element_unchecked(0, 2), Ordering::Less);
    assert_eq!(ord.cmp_element_unchecked(2, 1), Ordering::Greater);
    assert_eq!(ord.cmp_element_unchecked(3, 4), Ordering::Less);
    assert_eq!(ord.cmp_element_unchecked(4, 5), Ordering::Equal);
    assert_eq!(ord.cmp_element_unchecked(0, 1), Ordering::Equal);
}
