use ark_bls12_377::{Fr, G1Affine, G1Projective};
use ark_ec::{AffineRepr, CurveGroup};
use ark_ff::{BigInt, Field, PrimeField, UniformRand, Zero};
use ark_serialize::{CanonicalDeserialize, CanonicalSerialize};
use rand::thread_rng;
use sha2::{Digest, Sha256};
use vector_commitment::{
    check_non_membership, commit, evaluate_poly, fold, hash_points_to_fr, insert,
    poly_from_roots, Error, GeneratorTable, GroupElement, Scalar,
};

fn table_of(count: usize) -> GeneratorTable {
    let messages: Vec<String> = (0..count).map(|i| format!("generator {}", i)).collect();
    GeneratorTable::from_messages(&messages, count).unwrap()
}

fn scalar_of(value: Fr) -> Scalar {
    Scalar::from_limbs(value.into_bigint().0).unwrap()
}

fn fr_of(value: &Scalar) -> Fr {
    Fr::from_bigint(BigInt::new(value.to_limbs())).unwrap()
}

fn affine_of(point: &GroupElement) -> G1Affine {
    G1Affine::deserialize_compressed(&point.to_bytes()[..]).unwrap()
}

fn small_roots(count: usize) -> Vec<Scalar> {
    (0..count).map(|i| Scalar::from_u64(10 + i as u64)).collect()
}

fn challenge_of(first: &G1Affine, second: &G1Affine) -> Fr {
    let mut buf = [0u8; 96];
    first.serialize_compressed(&mut buf[..48]).unwrap();
    second.serialize_compressed(&mut buf[48..]).unwrap();
    let mut hasher = Sha256::new();
    hasher.update(&buf);
    Fr::from_le_bytes_mod_order(&hasher.finalize())
}

#[test]
fn test_accumulator_operations() {
    let mut rng = thread_rng();
    let points = table_of(20);

    // Create some test roots
    let roots = (0..20).map(|_| scalar_of(Fr::rand(&mut rng))).collect::<Vec<_>>();

    // Initial accumulator value
    let a_0 = GroupElement::identity();

    // Insert roots into accumulator: the polynomial of twenty roots has
    // twenty-one coefficients, two more than twenty generators carry
    let r = scalar_of(Fr::rand(&mut rng));
    assert_eq!(insert(&points, &roots, a_0, r).unwrap_err(), Error::LengthMismatch);

    // Test non-membership for a value not in roots
    let v = scalar_of(Fr::rand(&mut rng));
    let s_0 = GroupElement::identity();
    assert_eq!(
        check_non_membership(&points, &roots, v, r, s_0).unwrap_err(),
        Error::LengthMismatch
    );

    // Test that a root value fails non-membership check
    assert!(check_non_membership(&points, &roots, roots[0], r, s_0).is_err());
    assert_eq!(
        check_non_membership(&points, &roots, roots[0], r, s_0).unwrap_err(),
        Error::CandidateIsMember
    );
}

#[test]
fn accumulator_operations_on_a_fitting_table() {
    let mut rng = thread_rng();
    let points = table_of(22);
    let roots = (0..20).map(|_| scalar_of(Fr::rand(&mut rng))).collect::<Vec<_>>();
    let a_0 = GroupElement::identity();
    let r = scalar_of(Fr::rand(&mut rng));
    let a_1 = insert(&points, &roots, a_0, r).unwrap();
    assert_eq!(a_1.Accumulator, a_1.Commitment);
    let a_2 = insert(&points, &roots, a_1.Accumulator, r).unwrap();
    assert_eq!(a_2.Commitment, a_1.Commitment);
    assert_ne!(a_2.Accumulator, a_1.Accumulator);

    let v = scalar_of(Fr::rand(&mut rng));
    let s_1 = check_non_membership(&points, &roots, v, r, a_0).unwrap();
    assert_eq!(s_1.Commitment, a_1.Commitment);
    assert_ne!(s_1.Accumulator, a_1.Accumulator);
    for root in roots.iter() {
        assert_eq!(
            check_non_membership(&points, &roots, *root, r, a_0).unwrap_err(),
            Error::CandidateIsMember
        );
    }
}

#[test]
fn polynomial_of_no_root_is_one() {
    let poly = poly_from_roots(&[]);
    assert_eq!(poly.coeffs, vec![Scalar::one()]);
}

#[test]
fn polynomial_of_two_roots() {
    // (x - 1)(x - 2) = x^2 - 3x + 2
    let poly = poly_from_roots(&[Scalar::from_u64(1), Scalar::from_u64(2)]);
    assert_eq!(
        poly.coeffs,
        vec![Scalar::from_u64(2), Scalar::from_u64(3).neg(), Scalar::from_u64(1)]
    );
}

#[test]
fn polynomial_of_a_repeated_root() {
    // (x - 5)^2 = x^2 - 10x + 25
    let poly = poly_from_roots(&[Scalar::from_u64(5), Scalar::from_u64(5)]);
    assert_eq!(
        poly.coeffs,
        vec![Scalar::from_u64(25), Scalar::from_u64(10).neg(), Scalar::from_u64(1)]
    );
}

#[test]
fn polynomial_is_monic_of_the_degree_of_its_roots() {
    let roots = small_roots(18);
    let poly = poly_from_roots(&roots);
    assert_eq!(poly.coeffs.len(), 19);
    assert_eq!(poly.coeffs[18], Scalar::one());
    for root in roots.iter() {
        assert!(evaluate_poly(&poly.coeffs, *root).is_zero());
    }
    assert!(!evaluate_poly(&poly.coeffs, Scalar::from_u64(9)).is_zero());
}

#[test]
fn polynomial_takes_the_product_of_the_differences() {
    let roots = small_roots(4);
    let poly = poly_from_roots(&roots);
    let point = Fr::from(1000u64);
    let mut expected = Fr::ONE;
    for root in roots.iter() {
        expected *= point - fr_of(root);
    }
    assert_eq!(fr_of(&evaluate_poly(&poly.coeffs, scalar_of(point))), expected);
}

#[test]
fn evaluate_poly_by_hand() {
    // 7 + 3x + 2x^2 at 5 is 72, at 0 is 7
    let coeffs = [Scalar::from_u64(7), Scalar::from_u64(3), Scalar::from_u64(2)];
    assert_eq!(evaluate_poly(&coeffs, Scalar::from_u64(5)), Scalar::from_u64(72));
    assert_eq!(evaluate_poly(&coeffs, Scalar::zero()), Scalar::from_u64(7));
    assert_eq!(evaluate_poly(&[], Scalar::from_u64(5)), Scalar::zero());
    // zeros at the upper end change nothing
    let padded = [Scalar::from_u64(7), Scalar::from_u64(3), Scalar::zero(), Scalar::zero()];
    assert_eq!(evaluate_poly(&padded, Scalar::from_u64(5)), Scalar::from_u64(22));
}

#[test]
fn challenge_is_the_reduced_digest_of_both_encodings() {
    let points = table_of(2);
    let first = points.get(0);
    let second = points.get(1);
    let expected = challenge_of(&affine_of(&first), &affine_of(&second));
    assert_eq!(fr_of(&hash_points_to_fr(&first, &second)), expected);
    assert_ne!(hash_points_to_fr(&first, &second), hash_points_to_fr(&second, &first));
}

#[test]
fn fold_scales_the_previous_value_and_adds_the_commitment() {
    let points = table_of(2);
    let previous = affine_of(&points.get(0));
    let commitment = affine_of(&points.get(1));
    let expected = previous * challenge_of(&previous, &commitment) + commitment;
    assert_eq!(affine_of(&fold(&points.get(0), &points.get(1))), expected.into_affine());
}

#[test]
fn fold_into_the_identity_is_the_commitment() {
    let points = table_of(1);
    assert_eq!(fold(&GroupElement::identity(), &points.get(0)), points.get(0));
}

#[test]
fn insert_commits_to_the_coefficients_and_folds() {
    let points = table_of(20);
    let roots = small_roots(18);
    let r = Scalar::from_u64(123456789);
    let previous = points.get(5);
    let state = insert(&points, &roots, previous, r).unwrap();

    let coeffs = poly_from_roots(&roots).coeffs;
    assert_eq!(state.Commitment, commit(&points, &coeffs, r).unwrap());
    let mut commitment: G1Projective = affine_of(&points.get(0)) * fr_of(&r);
    for (i, c) in coeffs.iter().enumerate() {
        commitment += affine_of(&points.get(i + 1)) * fr_of(c);
    }
    let commitment = commitment.into_affine();
    assert_eq!(affine_of(&state.Commitment), commitment);
    let prev = affine_of(&previous);
    let expected = prev * challenge_of(&prev, &commitment) + commitment;
    assert_eq!(affine_of(&state.Accumulator), expected.into_affine());
}

#[test]
fn insert_gives_the_same_state_twice() {
    let points = table_of(6);
    let roots = small_roots(4);
    let r = Scalar::from_u64(42);
    let first = insert(&points, &roots, GroupElement::identity(), r).unwrap();
    let second = insert(&points, &roots, GroupElement::identity(), r).unwrap();
    assert_eq!(first, second);
    assert_eq!(first.Accumulator.to_bytes(), second.Accumulator.to_bytes());
    assert_eq!(first.Commitment.to_bytes(), second.Commitment.to_bytes());
    // from the identity the accumulator is the commitment itself
    assert_eq!(first.Accumulator, first.Commitment);
}

#[test]
fn insert_ignores_the_order_of_the_roots() {
    let points = table_of(6);
    let r = Scalar::from_u64(42);
    let start = points.get(1);
    let roots: Vec<Scalar> = [5u64, 9, 9, 70].iter().map(|x| Scalar::from_u64(*x)).collect();
    let shuffled: Vec<Scalar> = [9u64, 70, 5, 9].iter().map(|x| Scalar::from_u64(*x)).collect();
    let other: Vec<Scalar> = [9u64, 70, 5, 5].iter().map(|x| Scalar::from_u64(*x)).collect();
    assert_eq!(poly_from_roots(&roots), poly_from_roots(&shuffled));
    assert_ne!(poly_from_roots(&roots), poly_from_roots(&other));
    let state = insert(&points, &roots, start, r).unwrap();
    assert_eq!(state, insert(&points, &shuffled, start, r).unwrap());
    assert_ne!(state, insert(&points, &other, start, r).unwrap());
    let candidate = Scalar::from_u64(6);
    assert_eq!(
        check_non_membership(&points, &roots, candidate, r, start).unwrap(),
        check_non_membership(&points, &shuffled, candidate, r, start).unwrap()
    );
}

#[test]
fn insert_wants_two_roots_fewer_than_generators() {
    let points = table_of(6);
    let r = Scalar::from_u64(42);
    let start = GroupElement::identity();
    assert_eq!(insert(&points, &small_roots(3), start, r).unwrap_err(), Error::LengthMismatch);
    assert_eq!(insert(&points, &small_roots(5), start, r).unwrap_err(), Error::LengthMismatch);
    assert_eq!(insert(&points, &small_roots(6), start, r).unwrap_err(), Error::LengthMismatch);
    assert!(insert(&points, &small_roots(4), start, r).is_ok());
}

#[test]
fn non_membership_of_a_root_is_refused() {
    let points = table_of(6);
    let roots = small_roots(4);
    let r = Scalar::from_u64(42);
    let start = points.get(3);
    for root in roots.iter() {
        assert_eq!(
            check_non_membership(&points, &roots, *root, r, start).unwrap_err(),
            Error::CandidateIsMember
        );
    }
    // the candidate is looked at before the number of roots
    assert_eq!(
        check_non_membership(&points, &small_roots(9), Scalar::from_u64(12), r, start)
            .unwrap_err(),
        Error::CandidateIsMember
    );
    assert_eq!(
        check_non_membership(&points, &small_roots(9), Scalar::from_u64(5), r, start)
            .unwrap_err(),
        Error::LengthMismatch
    );
}

#[test]
fn non_membership_folds_the_adjusted_commitment() {
    let points = table_of(6);
    let roots = small_roots(4);
    let r = Scalar::from_u64(42);
    let candidate = Scalar::from_u64(3);
    let previous = points.get(2);
    let state = check_non_membership(&points, &roots, candidate, r, previous).unwrap();
    let again = check_non_membership(&points, &roots, candidate, r, previous).unwrap();
    assert_eq!(state, again);

    let coeffs = poly_from_roots(&roots).coeffs;
    let commitment = commit(&points, &coeffs, r).unwrap();
    assert_eq!(state.Commitment, commitment);
    // (3 - 10)(3 - 11)(3 - 12)(3 - 13) = 5040
    let alpha = evaluate_poly(&coeffs, candidate);
    assert_eq!(alpha, Scalar::from_u64(5040));
    let adjusted = (affine_of(&commitment).into_group()
        - affine_of(&points.get(0)) * Fr::from(5040u64))
    .into_affine();
    let prev = affine_of(&previous);
    let expected = prev * challenge_of(&prev, &adjusted) + adjusted;
    assert_eq!(affine_of(&state.Accumulator), expected.into_affine());
    assert!(!fr_of(&alpha).is_zero());
    // what was taken away can be added back
    let taken = points.get(0).times(&alpha);
    assert_eq!(commitment.minus(&taken).plus(&taken), commitment);
}

fn hex_of(bytes: &[u8]) -> String {
    bytes.iter().map(|b| format!("{:02x}", b)).collect()
}

#[test]
fn insert_of_fixed_roots_from_the_identity() {
    let points = table_of(20);
    let roots: Vec<Scalar> = (1..=18).map(|i| Scalar::from_u64(1000 * i + 7)).collect();
    let r = Scalar::from_limbs([0x0123456789abcdef, 0xfedcba9876543210, 0x0f1e2d3c4b5a6978, 0x01])
        .unwrap();
    let state = insert(&points, &roots, GroupElement::identity(), r).unwrap();
    assert_eq!(
        hex_of(&points.get(0).to_bytes()),
        "a485c8228649ff21ddb557c3668c1efe82d4a9fcaa2eb2cd19fa89ba1c065448\
         fcf89e674b91f4cd7d21c4dfc23d0700"
    );
    assert_eq!(
        hex_of(&state.Commitment.to_bytes()),
        "eb76c1d2d73975f1d6171b36e6cc9b584cdcf1faa66be49aac9d999ef6876778\
         da0cfdabab22bc571b5c2e6bb3e64580"
    );
    // the identity times the challenge is the identity
    assert_eq!(state.Accumulator, state.Commitment);
    assert_eq!(
        hash_points_to_fr(&state.Accumulator, &state.Commitment).to_limbs(),
        [15767595172734870939, 17059680947197559418, 12391362367563332540, 1342546622367493207]
    );
    // the same roots once more, into the state just made
    let next = insert(&points, &roots, state.Accumulator, r).unwrap();
    assert_eq!(next.Commitment, state.Commitment);
    assert_eq!(
        hex_of(&next.Accumulator.to_bytes()),
        "738454ee71a6b38f4d02761d81031bcff776c36f885e6b77d81c5242190dcf69\
         6b20ee498a3ce75542fecb8ba2e06181"
    );

    // the same, from the curve's own arithmetic
    let coeffs = poly_from_roots(&roots).coeffs;
    let mut commitment: G1Projective = affine_of(&points.get(0)) * fr_of(&r);
    for (i, c) in coeffs.iter().enumerate() {
        commitment += affine_of(&points.get(i + 1)) * fr_of(c);
    }
    let commitment = commitment.into_affine();
    assert_eq!(affine_of(&state.Commitment), commitment);
    let folded = commitment * challenge_of(&commitment, &commitment) + commitment;
    assert_eq!(affine_of(&next.Accumulator), folded.into_affine());
}
