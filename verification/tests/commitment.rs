use ark_bls12_377::{Fr, G1Affine, G1Projective};
use ark_ec::{AffineRepr, CurveGroup};
use ark_ff::{BigInt, PrimeField, UniformRand};
use ark_serialize::{CanonicalDeserialize, CanonicalSerialize};
use rand::thread_rng;
use vector_commitment::{
    batch_check, batch_open, check, commit, open, Error, GeneratorTable, GroupElement, Scalar,
};

const NUM_POINTS: usize = 20;

fn table_of(count: usize) -> GeneratorTable {
    let messages: Vec<String> = (0..count).map(|i| format!("generator {}", i)).collect();
    GeneratorTable::from_messages(&messages, count).unwrap()
}

fn scalar_of(value: Fr) -> Scalar {
    Scalar::from_limbs(value.into_bigint().0).unwrap()
}

fn fr_of(value: &Scalar) -> Fr {
    Fr::from_bigint(BigInt::new(value.to_limbs())).unwrap()
}

fn affine_of(point: &GroupElement) -> G1Affine {
    G1Affine::deserialize_compressed(&point.to_bytes()[..]).unwrap()
}

fn element_of(point: G1Affine) -> GroupElement {
    let mut bytes = Vec::new();
    point.serialize_compressed(&mut bytes).unwrap();
    GroupElement::from_bytes(&bytes).unwrap()
}

fn random_values(count: usize) -> Vec<Scalar> {
    let mut rng = thread_rng();
    (0..count).map(|_| scalar_of(Fr::rand(&mut rng))).collect()
}

fn small_values(count: usize) -> Vec<Scalar> {
    (0..count).map(|i| Scalar::from_u64(3 * i as u64 + 1)).collect()
}

#[test]
fn test_commit_and_verify() {
    let points = table_of(NUM_POINTS);
    let mut rng = thread_rng();
    let v = random_values(NUM_POINTS - 1);
    let r = scalar_of(Fr::rand(&mut rng));

    let commitment = commit(&points, &v, r).unwrap();
    let j = 0;
    let (v_j, _r_j, witness) = open(&points, &v, r, j).unwrap();

    assert!(check(commitment, v_j, witness, points.get(j + 1)));
}

#[test]
fn test_batch_open() {
    let points = table_of(NUM_POINTS);
    let mut rng = thread_rng();
    let v = random_values(NUM_POINTS - 1);
    let r = scalar_of(Fr::rand(&mut rng));
    let commitment = commit(&points, &v, r).unwrap();

    let indices = vec![0, 2, 4];
    let (values, _r_j, witness) = batch_open(&points, &v, r, indices.clone()).unwrap();

    assert!(batch_check(&points, commitment, &values, witness, &indices).unwrap());
}

#[test]
fn test_batch_open_edge_cases() {
    let points = table_of(NUM_POINTS);
    let mut rng = thread_rng();
    let v = random_values(NUM_POINTS - 1);
    let r = scalar_of(Fr::rand(&mut rng));
    let commitment = commit(&points, &v, r).unwrap();

    // Test with all indices
    let all_indices: Vec<usize> = (0..v.len()).collect();
    let (values, _r_j, witness) = batch_open(&points, &v, r, all_indices.clone()).unwrap();
    assert!(batch_check(&points, commitment, &values, witness, &all_indices).unwrap());

    // Test with empty indices (should fail)
    assert!(batch_open(&points, &v, r, Vec::<usize>::new()).is_err());

    // Test with duplicate indices (should fail)
    let duplicate_indices = vec![0, 0, 2];
    assert!(batch_open(&points, &v, r, duplicate_indices).is_err());

    // Test with out of bounds index (should fail)
    let out_of_bounds = vec![0, v.len()];
    assert!(batch_open(&points, &v, r, out_of_bounds).is_err());
}

#[test]
fn test_invalid_opening() {
    let points = table_of(NUM_POINTS);
    let mut rng = thread_rng();
    let v = random_values(NUM_POINTS - 1);
    let r = scalar_of(Fr::rand(&mut rng));
    let commitment = commit(&points, &v, r).unwrap();

    let j = 0;
    let (v_j, _r_j, witness) = open(&points, &v, r, j).unwrap();
    let invalid_v_j = scalar_of(fr_of(&v_j) + Fr::from(1u64));

    assert!(!check(commitment, invalid_v_j, witness, points.get(j + 1)));
}

#[test]
fn test_invalid_vector_length() {
    let points = table_of(NUM_POINTS);
    let mut rng = thread_rng();
    let v = random_values(NUM_POINTS);
    let r = scalar_of(Fr::rand(&mut rng));
    assert!(commit(&points, &v, r).is_err());
}

#[test]
fn commit_is_the_linear_combination() {
    let points = table_of(5);
    let v = small_values(4);
    let r = Scalar::from_u64(77);
    let mut expected: G1Projective = affine_of(&points.get(0)) * Fr::from(77u64);
    for (i, value) in v.iter().enumerate() {
        expected += affine_of(&points.get(i + 1)) * fr_of(value);
    }
    let commitment = commit(&points, &v, r).unwrap();
    assert_eq!(affine_of(&commitment), expected.into_affine());
    assert_eq!(commitment, element_of(expected.into_affine()));
}

#[test]
fn commit_rejects_every_other_length() {
    let points = table_of(4);
    let r = Scalar::from_u64(5);
    assert_eq!(commit(&points, &small_values(0), r), Err(Error::LengthMismatch));
    assert_eq!(commit(&points, &small_values(2), r), Err(Error::LengthMismatch));
    assert_eq!(commit(&points, &small_values(4), r), Err(Error::LengthMismatch));
    assert!(commit(&points, &small_values(3), r).is_ok());
}

#[test]
fn commit_with_the_blinding_generator_alone() {
    let points = table_of(1);
    let r = Scalar::from_u64(9);
    let commitment = commit(&points, &[], r).unwrap();
    let expected = (affine_of(&points.get(0)) * Fr::from(9u64)).into_affine();
    assert_eq!(affine_of(&commitment), expected);
}

#[test]
fn every_opening_verifies() {
    let points = table_of(5);
    let v = random_values(4);
    let r = random_values(1)[0];
    let commitment = commit(&points, &v, r).unwrap();
    for j in 0..v.len() {
        let (v_j, r_j, witness) = open(&points, &v, r, j).unwrap();
        assert_eq!(v_j, v[j]);
        assert_eq!(r_j, r);
        assert!(check(commitment, v_j, witness, points.get(j + 1)));
    }
}

#[test]
fn witness_is_the_commitment_without_the_opened_term() {
    let points = table_of(5);
    let v = small_values(4);
    let r = Scalar::from_u64(11);
    let commitment = commit(&points, &v, r).unwrap();
    let (v_2, _, witness) = open(&points, &v, r, 2).unwrap();
    let expected = affine_of(&commitment).into_group() - affine_of(&points.get(3)) * fr_of(&v_2);
    assert_eq!(affine_of(&witness), expected.into_affine());
}

#[test]
fn open_rejects_an_index_beyond_the_vector() {
    let points = table_of(5);
    let v = small_values(4);
    let r = Scalar::from_u64(11);
    assert_eq!(open(&points, &v, r, 4).unwrap_err(), Error::IndexOutOfBounds);
    assert_eq!(open(&points, &v, r, usize::MAX).unwrap_err(), Error::IndexOutOfBounds);
    assert!(open(&points, &v, r, 3).is_ok());
}

#[test]
fn check_fails_on_the_wrong_generator() {
    let points = table_of(5);
    let v = small_values(4);
    let r = Scalar::from_u64(11);
    let commitment = commit(&points, &v, r).unwrap();
    let (v_1, _, witness) = open(&points, &v, r, 1).unwrap();
    assert!(check(commitment, v_1, witness, points.get(2)));
    assert!(!check(commitment, v_1, witness, points.get(3)));
}

#[test]
fn tampered_value_fails_for_any_shift() {
    let points = table_of(4);
    let v = small_values(3);
    let r = Scalar::from_u64(2);
    let commitment = commit(&points, &v, r).unwrap();
    let (v_1, _, witness) = open(&points, &v, r, 1).unwrap();
    for delta in [1u64, 2, 1000] {
        let tampered = scalar_of(fr_of(&v_1) + Fr::from(delta));
        assert!(!check(commitment, tampered, witness, points.get(2)));
    }
    let minus_one = scalar_of(fr_of(&v_1) - Fr::from(1u64));
    assert!(!check(commitment, minus_one, witness, points.get(2)));
}

#[test]
fn batch_values_come_in_ascending_order_of_index() {
    let points = table_of(7);
    let v = small_values(6);
    let r = Scalar::from_u64(31);
    let commitment = commit(&points, &v, r).unwrap();
    let (values, blinding, witness) = batch_open(&points, &v, r, vec![4, 0, 2]).unwrap();
    assert_eq!(values, vec![v[0], v[2], v[4]]);
    assert_eq!(blinding, r);
    let (sorted_values, _, sorted_witness) = batch_open(&points, &v, r, vec![0, 2, 4]).unwrap();
    assert_eq!(values, sorted_values);
    assert_eq!(witness, sorted_witness);
    assert_eq!(batch_check(&points, commitment, &values, witness, &[0, 2, 4]), Ok(true));
}

#[test]
fn batch_witness_leaves_the_opened_terms_out() {
    let points = table_of(6);
    let v = small_values(5);
    let r = Scalar::from_u64(8);
    let (_, _, witness) = batch_open(&points, &v, r, vec![3, 1]).unwrap();
    let mut expected: G1Projective = G1Projective::default();
    for i in [0usize, 2, 4] {
        expected += affine_of(&points.get(i + 1)) * fr_of(&v[i]);
    }
    expected += affine_of(&points.get(0)) * Fr::from(8u64);
    assert_eq!(affine_of(&witness), expected.into_affine());
}

#[test]
fn batch_open_of_one_index_is_open() {
    let points = table_of(5);
    let v = small_values(4);
    let r = Scalar::from_u64(6);
    let (values, _, witness) = batch_open(&points, &v, r, vec![2]).unwrap();
    let (value, _, single) = open(&points, &v, r, 2).unwrap();
    assert_eq!(values, vec![value]);
    assert_eq!(witness, single);
}

#[test]
fn batch_open_names_each_error() {
    let points = table_of(5);
    let v = small_values(4);
    let r = Scalar::from_u64(6);
    assert_eq!(batch_open(&points, &v, r, vec![]).unwrap_err(), Error::EmptyIndices);
    assert_eq!(batch_open(&points, &v, r, vec![1, 3, 1]).unwrap_err(), Error::DuplicateIndex);
    assert_eq!(batch_open(&points, &v, r, vec![1, 4]).unwrap_err(), Error::IndexOutOfBounds);
    // a repeated index is reported before one that is out of bounds
    assert_eq!(batch_open(&points, &v, r, vec![9, 2, 9]).unwrap_err(), Error::DuplicateIndex);
    assert_eq!(batch_open(&points, &v, r, vec![7, 0, 0]).unwrap_err(), Error::DuplicateIndex);
}

#[test]
fn batch_check_names_each_error() {
    let points = table_of(6);
    let v = small_values(5);
    let r = Scalar::from_u64(6);
    let commitment = commit(&points, &v, r).unwrap();
    let (values, _, witness) = batch_open(&points, &v, r, vec![1, 3]).unwrap();
    assert_eq!(
        batch_check(&points, commitment, &values, witness, &[1, 3, 4]),
        Err(Error::LengthMismatch)
    );
    assert_eq!(
        batch_check(&points, commitment, &values, witness, &[1]),
        Err(Error::LengthMismatch)
    );
    assert_eq!(
        batch_check(&points, commitment, &values, witness, &[3, 1]),
        Err(Error::UnsortedOrDuplicate)
    );
    assert_eq!(
        batch_check(&points, commitment, &values, witness, &[1, 1]),
        Err(Error::UnsortedOrDuplicate)
    );
    // the lengths are compared first
    assert_eq!(
        batch_check(&points, commitment, &values, witness, &[3, 1, 0]),
        Err(Error::LengthMismatch)
    );
    assert_eq!(batch_check(&points, commitment, &values, witness, &[1, 3]), Ok(true));
}

#[test]
fn batch_check_answers_false_without_an_error() {
    let points = table_of(6);
    let v = small_values(5);
    let r = Scalar::from_u64(6);
    let commitment = commit(&points, &v, r).unwrap();
    let (values, _, witness) = batch_open(&points, &v, r, vec![1, 3]).unwrap();
    // the values of other coordinates
    assert_eq!(batch_check(&points, commitment, &values, witness, &[1, 2]), Ok(false));
    // one value shifted
    let mut tampered = values.clone();
    tampered[1] = scalar_of(fr_of(&values[1]) + Fr::from(1u64));
    assert_eq!(batch_check(&points, commitment, &tampered, witness, &[1, 3]), Ok(false));
    let mut tampered = values.clone();
    tampered[0] = scalar_of(fr_of(&values[0]) - Fr::from(5u64));
    assert_eq!(batch_check(&points, commitment, &tampered, witness, &[1, 3]), Ok(false));
    // another commitment
    let other = commit(&points, &v, Scalar::from_u64(7)).unwrap();
    assert_eq!(batch_check(&points, other, &values, witness, &[1, 3]), Ok(false));
}

#[test]
fn batch_check_with_no_value_compares_the_witness() {
    let points = table_of(3);
    let v = small_values(2);
    let r = Scalar::from_u64(6);
    let commitment = commit(&points, &v, r).unwrap();
    assert_eq!(batch_check(&points, commitment, &[], commitment, &[]), Ok(true));
    assert_eq!(batch_check(&points, commitment, &[], points.get(0), &[]), Ok(false));
}

#[test]
fn open_names_the_index_before_the_length() {
    let points = table_of(5);
    let r = Scalar::from_u64(11);
    assert_eq!(open(&points, &[], r, 0).unwrap_err(), Error::IndexOutOfBounds);
    let short = small_values(2);
    assert_eq!(open(&points, &short, r, 2).unwrap_err(), Error::IndexOutOfBounds);
    assert_eq!(open(&points, &short, r, 1).unwrap_err(), Error::LengthMismatch);
    assert_eq!(open(&points, &short, r, 0).unwrap_err(), Error::LengthMismatch);
    let long = small_values(6);
    assert_eq!(open(&points, &long, r, 6).unwrap_err(), Error::IndexOutOfBounds);
    assert_eq!(open(&points, &long, r, 5).unwrap_err(), Error::LengthMismatch);
    assert_eq!(open(&points, &long, r, 0).unwrap_err(), Error::LengthMismatch);
}

#[test]
fn batch_open_names_the_indices_before_the_length() {
    let points = table_of(5);
    let r = Scalar::from_u64(11);
    let short = small_values(1);
    assert_eq!(batch_open(&points, &short, r, vec![5]).unwrap_err(), Error::IndexOutOfBounds);
    assert_eq!(batch_open(&points, &short, r, vec![]).unwrap_err(), Error::EmptyIndices);
    assert_eq!(batch_open(&points, &short, r, vec![0, 0]).unwrap_err(), Error::DuplicateIndex);
    assert_eq!(batch_open(&points, &short, r, vec![0]).unwrap_err(), Error::LengthMismatch);
    assert_eq!(batch_open(&points, &[], r, vec![0]).unwrap_err(), Error::IndexOutOfBounds);
    assert_eq!(batch_open(&points, &[], r, vec![]).unwrap_err(), Error::EmptyIndices);
    let long = small_values(6);
    assert_eq!(batch_open(&points, &long, r, vec![0]).unwrap_err(), Error::LengthMismatch);
    assert_eq!(batch_open(&points, &long, r, vec![5, 1]).unwrap_err(), Error::LengthMismatch);
    assert_eq!(batch_open(&points, &long, r, vec![6]).unwrap_err(), Error::IndexOutOfBounds);
}

#[test]
fn batch_check_refuses_an_index_without_a_generator() {
    let points = table_of(NUM_POINTS);
    let v = small_values(NUM_POINTS - 1);
    let r = Scalar::from_u64(6);
    let commitment = commit(&points, &v, r).unwrap();
    let one = [Scalar::zero()];
    assert_eq!(batch_check(&points, commitment, &one, commitment, &[19]), Ok(false));
    assert_eq!(batch_check(&points, commitment, &one, commitment, &[usize::MAX]), Ok(false));
    assert_eq!(batch_check(&points, commitment, &one, commitment, &[18]), Ok(true));
    let (values, _, witness) = batch_open(&points, &v, r, vec![0, 18]).unwrap();
    assert_eq!(batch_check(&points, commitment, &values, witness, &[0, 18]), Ok(true));
    assert_eq!(batch_check(&points, commitment, &values, witness, &[0, 19]), Ok(false));
    assert_eq!(batch_check(&points, commitment, &values, witness, &[18, usize::MAX]), Ok(false));
    // the order of the indices is looked at before their range
    assert_eq!(
        batch_check(&points, commitment, &values, witness, &[usize::MAX, 19]),
        Err(Error::UnsortedOrDuplicate)
    );
}

#[test]
fn commitments_add() {
    let points = table_of(5);
    let first = random_values(4);
    let second = random_values(4);
    let blinding = random_values(2);
    let sums: Vec<Scalar> =
        first.iter().zip(second.iter()).map(|(a, b)| scalar_of(fr_of(a) + fr_of(b))).collect();
    let blinding_sum = scalar_of(fr_of(&blinding[0]) + fr_of(&blinding[1]));
    let c_1 = commit(&points, &first, blinding[0]).unwrap();
    let c_2 = commit(&points, &second, blinding[1]).unwrap();
    assert_eq!(c_1.plus(&c_2), commit(&points, &sums, blinding_sum).unwrap());
}

#[test]
fn commitment_to_zeros_is_the_blinding_term() {
    let points = table_of(5);
    let zeros = vec![Scalar::zero(); 4];
    let r = Scalar::from_u64(91);
    assert_eq!(commit(&points, &zeros, r).unwrap(), points.get(0).times(&r));
    assert_eq!(commit(&points, &zeros, Scalar::zero()).unwrap(), GroupElement::identity());
}

#[test]
fn commitment_to_a_unit_vector_is_its_generator() {
    let points = table_of(5);
    for j in 0..4 {
        let mut values = vec![Scalar::zero(); 4];
        values[j] = Scalar::one();
        assert_eq!(commit(&points, &values, Scalar::zero()).unwrap(), points.get(j + 1));
    }
}
