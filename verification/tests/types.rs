use ark_bls12_377::{g1::Config, Fr, G1Affine, G1Projective};
use ark_ec::hashing::curve_maps::wb::WBMap;
use ark_ec::hashing::map_to_curve_hasher::MapToCurveBasedHasher;
use ark_ec::hashing::HashToCurve;
use ark_ec::{AffineRepr, CurveGroup};
use ark_ff::field_hashers::DefaultFieldHasher;
use ark_ff::{BigInt, PrimeField};
use ark_serialize::{CanonicalDeserialize, CanonicalSerialize};
use sha2::Sha256;
use vector_commitment::{GeneratorTable, GroupElement, Scalar};

const MODULUS: [u64; 4] =
    [0x0a11800000000001, 0x59aa76fed0000001, 0x60b44d1e5c37b001, 0x12ab655e9a2ca556];

fn fr_of(value: &Scalar) -> Fr {
    Fr::from_bigint(BigInt::new(value.to_limbs())).unwrap()
}

fn affine_of(point: &GroupElement) -> G1Affine {
    G1Affine::deserialize_compressed(&point.to_bytes()[..]).unwrap()
}

fn generator() -> GroupElement {
    let mut bytes = Vec::new();
    G1Affine::generator().serialize_compressed(&mut bytes).unwrap();
    GroupElement::from_bytes(&bytes).unwrap()
}

#[test]
fn modulus_limbs_are_those_of_the_field() {
    assert_eq!(Fr::MODULUS.0, MODULUS);
    assert_eq!(
        [
            vector_commitment::scalar::MODULUS_LIMB_0,
            vector_commitment::scalar::MODULUS_LIMB_1,
            vector_commitment::scalar::MODULUS_LIMB_2,
            vector_commitment::scalar::MODULUS_LIMB_3
        ],
        MODULUS
    );
}

#[test]
fn scalar_from_limbs_wants_a_reduced_number() {
    assert!(Scalar::from_limbs(MODULUS).is_none());
    assert!(Scalar::from_limbs([u64::MAX; 4]).is_none());
    assert!(Scalar::from_limbs([MODULUS[0] + 1, MODULUS[1], MODULUS[2], MODULUS[3]]).is_none());
    assert!(Scalar::from_limbs([0, 0, 0, MODULUS[3] + 1]).is_none());
    let largest = [MODULUS[0] - 1, MODULUS[1], MODULUS[2], MODULUS[3]];
    assert_eq!(Scalar::from_limbs(largest).unwrap().to_limbs(), largest);
    let mixed = [u64::MAX, u64::MAX, u64::MAX, MODULUS[3] - 1];
    assert_eq!(Scalar::from_limbs(mixed).unwrap().to_limbs(), mixed);
    let lower = [u64::MAX, MODULUS[1] - 1, MODULUS[2], MODULUS[3]];
    assert_eq!(Scalar::from_limbs(lower).unwrap().to_limbs(), lower);
    assert_eq!(Scalar::from_limbs([0; 4]).unwrap(), Scalar::zero());
}

#[test]
fn scalar_constants() {
    assert_eq!(Scalar::zero().to_limbs(), [0, 0, 0, 0]);
    assert_eq!(Scalar::one().to_limbs(), [1, 0, 0, 0]);
    assert_eq!(Scalar::from_u64(u64::MAX).to_limbs(), [u64::MAX, 0, 0, 0]);
    assert!(Scalar::zero().is_zero());
    assert!(!Scalar::one().is_zero());
    assert!(!Scalar::from_limbs([0, 0, 0, 1]).unwrap().is_zero());
    assert!(Scalar::one().equals(&Scalar::from_u64(1)));
    assert!(!Scalar::one().equals(&Scalar::from_limbs([1, 1, 0, 0]).unwrap()));
    assert_eq!(fr_of(&Scalar::from_u64(12345)), Fr::from(12345u64));
}

#[test]
fn scalar_neg_is_the_additive_inverse() {
    assert_eq!(Scalar::zero().neg(), Scalar::zero());
    assert_eq!(
        Scalar::one().neg().to_limbs(),
        [MODULUS[0] - 1, MODULUS[1], MODULUS[2], MODULUS[3]]
    );
    let value = Scalar::from_u64(987654321);
    assert_eq!(fr_of(&value.neg()), -Fr::from(987654321u64));
    assert_eq!(value.neg().neg(), value);
}

#[test]
fn scalar_from_bytes_reduces() {
    assert_eq!(Scalar::from_le_bytes_mod_order(&[]), Scalar::zero());
    assert_eq!(Scalar::from_le_bytes_mod_order(&[1]), Scalar::one());
    assert_eq!(Scalar::from_le_bytes_mod_order(&[0, 1]), Scalar::from_u64(256));
    let mut modulus_bytes = Vec::new();
    for limb in MODULUS {
        modulus_bytes.extend_from_slice(&limb.to_le_bytes());
    }
    assert_eq!(Scalar::from_le_bytes_mod_order(&modulus_bytes), Scalar::zero());
    modulus_bytes[0] += 4;
    assert_eq!(Scalar::from_le_bytes_mod_order(&modulus_bytes), Scalar::from_u64(4));
    // 2^256 - 1, and a string longer than the field
    let all_ones = [0xffu8; 32];
    assert_eq!(
        fr_of(&Scalar::from_le_bytes_mod_order(&all_ones)),
        Fr::from_le_bytes_mod_order(&all_ones)
    );
    let long = [7u8; 40];
    assert_eq!(
        fr_of(&Scalar::from_le_bytes_mod_order(&long)),
        Fr::from_le_bytes_mod_order(&long)
    );
    assert_ne!(Scalar::from_le_bytes_mod_order(&all_ones).to_limbs(), [u64::MAX; 4]);
}

#[test]
fn identity_is_the_flagged_zero() {
    let mut expected = [0u8; 48];
    expected[47] = 0x40;
    assert_eq!(GroupElement::identity().to_bytes(), expected);
    assert!(affine_of(&GroupElement::identity()).is_zero());
    assert_eq!(GroupElement::from_bytes(&expected), Some(GroupElement::identity()));
}

#[test]
fn from_bytes_gives_the_canonical_encoding() {
    let g = generator();
    assert_eq!(affine_of(&g), G1Affine::generator());
    assert_eq!(GroupElement::from_bytes(&g.to_bytes()), Some(g));
    // bytes after the encoding are not read
    let mut longer = g.to_bytes().to_vec();
    longer.extend_from_slice(&[1, 2, 3]);
    assert_eq!(GroupElement::from_bytes(&longer), Some(g));
    // under the infinity flag the x-coordinate is not read
    let mut infinity = [0u8; 48];
    infinity[0] = 5;
    infinity[47] = 0x40;
    assert_eq!(GroupElement::from_bytes(&infinity), Some(GroupElement::identity()));
}

#[test]
fn from_bytes_refuses_what_is_no_point() {
    assert_eq!(GroupElement::from_bytes(&[]), None);
    assert_eq!(GroupElement::from_bytes(&[0u8; 47]), None);
    assert_eq!(GroupElement::from_bytes(&[0xffu8; 48]), None);
    // both flags at once
    let mut flags = [0u8; 48];
    flags[47] = 0xc0;
    assert_eq!(GroupElement::from_bytes(&flags), None);
    // a point of the curve outside the subgroup of prime order
    let mut x = ark_bls12_377::Fq::from(1u64);
    let outside = loop {
        if let Some(point) = G1Affine::get_point_from_x_unchecked(x, false) {
            if !point.is_in_correct_subgroup_assuming_on_curve() {
                break point;
            }
        }
        x += ark_bls12_377::Fq::from(1u64);
    };
    let mut bytes = Vec::new();
    outside.serialize_compressed(&mut bytes).unwrap();
    assert_eq!(GroupElement::from_bytes(&bytes), None);
}

#[test]
fn group_operations_are_those_of_the_curve() {
    let g = generator();
    let two = Scalar::from_u64(2);
    let double = g.times(&two);
    assert_eq!(affine_of(&double), (G1Affine::generator() * Fr::from(2u64)).into_affine());
    assert_eq!(g.plus(&g), double);
    assert_eq!(double.minus(&g), g);
    assert_eq!(double.minus(&g).plus(&g), double);
    assert_eq!(GroupElement::identity().plus(&g), g);
    assert_eq!(GroupElement::identity().times(&two), GroupElement::identity());
    assert_eq!(g.times(&Scalar::from_u64(3)).plus(&g.times(&Scalar::from_u64(4))),
        g.times(&Scalar::from_u64(7)));
    assert_eq!(g.minus(&g), GroupElement::identity());
    assert_eq!(g.plus(&GroupElement::identity()), g);
    assert_eq!(g.times(&Scalar::zero()), GroupElement::identity());
    assert_eq!(g.times(&Scalar::one()), g);
    assert_ne!(double, g);
    let big = Scalar::from_limbs([5, 6, 7, 8]).unwrap();
    let expected: G1Projective = G1Affine::generator() * fr_of(&big);
    assert_eq!(affine_of(&g.times(&big)), expected.into_affine());
    assert!(g.equals(&generator()));
    assert!(!g.equals(&double));
}

#[test]
fn table_holds_the_hashes_of_the_messages() {
    let messages: Vec<String> =
        vec!["first".to_string(), "second".to_string(), "third".to_string()];
    let table = GeneratorTable::from_messages(&messages, 2).unwrap();
    assert_eq!(table.len(), 2);
    let hasher = MapToCurveBasedHasher::<
        G1Projective,
        DefaultFieldHasher<Sha256>,
        WBMap<Config>,
    >::new(b"BLS12377G1_XMD:SHA-256_SSWU_RO_")
    .unwrap();
    assert_eq!(vector_commitment::generators::DOMAIN_TAG, "BLS12377G1_XMD:SHA-256_SSWU_RO_");
    for i in 0..2 {
        let expected: G1Affine = hasher.hash(messages[i].as_bytes()).unwrap();
        assert_eq!(affine_of(&table.get(i)), expected);
    }
    assert_ne!(table.get(0), table.get(1));
    assert_ne!(table.get(0), GroupElement::identity());
}

#[test]
fn table_wants_enough_messages() {
    let messages: Vec<String> = vec!["first".to_string(), "second".to_string()];
    assert!(GeneratorTable::from_messages(&messages, 0).is_none());
    assert!(GeneratorTable::from_messages(&messages, 3).is_none());
    assert!(GeneratorTable::from_messages(&[].to_vec(), 1).is_none());
    assert_eq!(GeneratorTable::from_messages(&messages, 2).unwrap().len(), 2);
    assert_eq!(GeneratorTable::from_messages(&messages, 1).unwrap().len(), 1);
}

#[test]
fn table_under_another_tag_differs() {
    let messages: Vec<String> = vec!["first".to_string()];
    let table = GeneratorTable::from_messages(&messages, 1).unwrap();
    let hasher = MapToCurveBasedHasher::<
        G1Projective,
        DefaultFieldHasher<Sha256>,
        WBMap<Config>,
    >::new(b"another tag")
    .unwrap();
    let other: G1Affine = hasher.hash(messages[0].as_bytes()).unwrap();
    assert_ne!(affine_of(&table.get(0)), other);
}

#[test]
fn table_of_given_points() {
    let g = generator();
    let h = g.plus(&g);
    assert!(GeneratorTable::new(&[]).is_none());
    let table = GeneratorTable::new(&[g, h]).unwrap();
    assert_eq!(table.len(), 2);
    assert_eq!(table.get(0), g);
    assert_eq!(table.get(1), h);
}
