use k256::elliptic_curve::ops::Reduce;
use sha2::Digest;
use dlog_proof::{generate_random_number, DLogProof, DecodingError, DlogError, Point, ProofRecord, Scalar};

fn small_scalar(v: u8) -> Scalar {
    let mut b = [0u8; 32];
    b[31] = v;
    Scalar::from_bytes(&b).unwrap()
}

fn to_json(rec: &ProofRecord) -> String {
    let mut m = serde_json::Map::new();
    m.insert("t".to_string(), serde_json::Value::String(rec.t.clone()));
    m.insert("s".to_string(), serde_json::Value::String(rec.s.clone()));
    serde_json::to_string(&serde_json::Value::Object(m)).unwrap()
}

fn from_json(text: &str) -> ProofRecord {
    let v: serde_json::Value = serde_json::from_str(text).unwrap();
    ProofRecord {
        t: v.get("t").unwrap().as_str().unwrap().to_string(),
        s: v.get("s").unwrap().as_str().unwrap().to_string(),
    }
}

#[test]
fn test_dlog_proof() {
    let sid = "sid";
    let pid = 1u64;

    let x = generate_random_number().unwrap();
    let y = Point::mul_base(&x);

    let dlog_proof = DLogProof::prove(sid, pid, x, y.clone()).expect("Failed to create proof");

    assert!(dlog_proof.verify(sid, pid, y).expect("Failed to verify proof"));
}

#[test]
fn test_dlog_proof_invalid() {
    let sid = "sid";
    let pid = 1u64;

    let x = generate_random_number().unwrap();
    let y = Point::mul_base(&x);

    let dlog_proof = DLogProof::prove(sid, pid, x, y).expect("Failed to create proof");

    let y_invalid = Point::mul_base(&generate_random_number().unwrap());

    assert!(!dlog_proof
        .verify(sid, pid, y_invalid)
        .expect("Failed to verify proof"));
}

#[test]
fn test_dlog_proof_serialization() {
    let sid = "sid";
    let pid = 1u64;

    let x = generate_random_number().unwrap();
    let y = Point::mul_base(&x);

    let dlog_proof = DLogProof::prove(sid, pid, x, y).expect("Failed to create proof");

    let serialized = to_json(&dlog_proof.encode());
    let deserialized = DLogProof::decode(&from_json(&serialized)).unwrap();

    assert_eq!(dlog_proof, deserialized);
}

#[test]
fn completeness_over_several_keys_and_contexts() {
    for (sid, pid) in [("", 0u64), ("sid", 1), ("session-ä", u64::MAX)] {
        for _ in 0..3 {
            let x = generate_random_number().unwrap();
            let y = Point::mul_base(&x);
            let p = DLogProof::prove(sid, pid, x, y.clone()).unwrap();
            assert!(p.verify(sid, pid, y).unwrap());
        }
    }
}

#[test]
fn wrong_public_point_is_rejected() {
    for _ in 0..4 {
        let x = generate_random_number().unwrap();
        let x2 = generate_random_number().unwrap();
        assert_ne!(x, x2);
        let y = Point::mul_base(&x);
        let p = DLogProof::prove("sid", 7, x, y).unwrap();
        assert!(!p.verify("sid", 7, Point::mul_base(&x2)).unwrap());
    }
}

#[test]
fn other_context_is_rejected() {
    let x = generate_random_number().unwrap();
    let y = Point::mul_base(&x);
    let p = DLogProof::prove("sid1", 1, x, y.clone()).unwrap();
    assert!(p.verify("sid1", 1, y.clone()).unwrap());
    assert!(!p.verify("sid2", 1, y.clone()).unwrap());
    assert!(!p.verify("sid1", 2, y.clone()).unwrap());
    assert!(!p.verify("sid2", 2, y).unwrap());
}

fn flip_hex_bit(text: &str, bit: usize) -> String {
    let mut bytes = hex::decode(text).unwrap();
    bytes[bit / 8] ^= 1 << (bit % 8);
    hex::encode(bytes)
}

#[test]
fn tampered_encoding_is_rejected() {
    let x = generate_random_number().unwrap();
    let y = Point::mul_base(&x);
    let p = DLogProof::prove("sid", 1, x, y.clone()).unwrap();
    let rec = p.encode();
    for bit in 0..33 * 8 {
        let bad = ProofRecord { t: flip_hex_bit(&rec.t, bit), s: rec.s.clone() };
        if let Ok(q) = DLogProof::decode(&bad) {
            assert!(!q.verify("sid", 1, y.clone()).unwrap());
        }
    }
    for bit in 0..32 * 8 {
        let bad = ProofRecord { t: rec.t.clone(), s: flip_hex_bit(&rec.s, bit) };
        if let Ok(q) = DLogProof::decode(&bad) {
            assert!(!q.verify("sid", 1, y.clone()).unwrap());
        }
    }
}

#[test]
fn two_proofs_differ_and_both_verify() {
    let x = generate_random_number().unwrap();
    let y = Point::mul_base(&x);
    let p1 = DLogProof::prove("sid", 1, x.clone(), y.clone()).unwrap();
    let p2 = DLogProof::prove("sid", 1, x, y.clone()).unwrap();
    assert_ne!(p1.t(), p2.t());
    assert_ne!(p1.s(), p2.s());
    assert!(p1.verify("sid", 1, y.clone()).unwrap());
    assert!(p2.verify("sid", 1, y).unwrap());
}

#[test]
fn fixed_nonce_gives_the_schnorr_response() {
    let x = small_scalar(5);
    let r = small_scalar(9);
    let y = Point::mul_base(&x);
    let p = DLogProof::prove_with_nonce("sid", 1, &x, &y, &r).unwrap();
    assert_eq!(p.t(), &Point::mul_base(&r));
    let c = DLogProof::hash_points("sid", 1, &[Point::generator(), y.clone(), p.t().clone()]).unwrap();
    assert_eq!(p.s(), &r.add(&c.mul(&x)));
    assert!(p.verify("sid", 1, y).unwrap());
}

#[test]
fn round_trip_of_fixed_proof() {
    let x = small_scalar(3);
    let r = small_scalar(1);
    let y = Point::mul_base(&x);
    let p = DLogProof::prove_with_nonce("sid", 1, &x, &y, &r).unwrap();
    let rec = p.encode();
    assert_eq!(rec.t, "0279be667ef9dcbbac55a06295ce870b07029bfcdb2dce28d959f2815b16f81798");
    assert_eq!(rec.s.len(), 64);
    assert_eq!(DLogProof::decode(&rec).unwrap(), p);
}

#[test]
fn hash_points_matches_sha256_of_transcript() {
    let g = Point::generator();
    let two = Point::mul_base(&small_scalar(2));
    let mut m: Vec<u8> = b"sid".to_vec();
    m.extend_from_slice(&42u64.to_le_bytes());
    m.extend_from_slice(&g.to_bytes());
    m.extend_from_slice(&two.to_bytes());
    let d = sha2::Sha256::digest(&m);
    let expected = <k256::Scalar as Reduce<k256::U256>>::reduce_bytes(&d);
    let c = DLogProof::hash_points("sid", 42, &[g.clone(), two.clone()]).unwrap();
    assert_eq!(c.to_bytes(), expected.to_bytes().to_vec());
    let swapped = DLogProof::hash_points("sid", 42, &[two, g]).unwrap();
    assert_ne!(c, swapped);
}

#[test]
fn identity_point_is_hashed_as_one_byte() {
    let id = Point::mul_base(&small_scalar(0));
    assert_eq!(id.to_bytes(), vec![0u8; 33]);
    let mut m: Vec<u8> = b"s".to_vec();
    m.extend_from_slice(&0u64.to_le_bytes());
    m.push(0);
    let d = sha2::Sha256::digest(&m);
    let expected = <k256::Scalar as Reduce<k256::U256>>::reduce_bytes(&d);
    let c = DLogProof::hash_points("s", 0, &[id]).unwrap();
    assert_eq!(c.to_bytes(), expected.to_bytes().to_vec());
}

#[test]
fn scalar_arithmetic_is_modular() {
    let order_minus_one = hex::decode("FFFFFFFFFFFFFFFFFFFFFFFFFFFFFFFEBAAEDCE6AF48A03BBFD25E8CD0364140").unwrap();
    let m1 = Scalar::from_bytes(&order_minus_one).unwrap();
    assert_eq!(m1.add(&small_scalar(2)), small_scalar(1));
    assert_eq!(small_scalar(2).mul(&small_scalar(3)), small_scalar(6));
    assert_eq!(m1.mul(&m1), small_scalar(1));
}

#[test]
fn scalar_parsing_checks_range_and_length() {
    let order = hex::decode("FFFFFFFFFFFFFFFFFFFFFFFFFFFFFFFEBAAEDCE6AF48A03BBFD25E8CD0364141").unwrap();
    assert!(Scalar::from_bytes(&order).is_none());
    assert!(Scalar::from_bytes(&[1u8; 31]).is_none());
    assert_eq!(small_scalar(7).to_bytes()[31], 7);
}

#[test]
fn point_operations_follow_the_group_law() {
    let g = Point::generator();
    assert_eq!(g.add(&g), Point::mul_base(&small_scalar(2)));
    assert_eq!(g.mul(&small_scalar(5)), Point::mul_base(&small_scalar(5)));
    assert!(g.equals(&Point::mul_base(&small_scalar(1))));
    assert!(!g.equals(&Point::mul_base(&small_scalar(2))));
    assert_eq!(Point::from_bytes(&g.to_bytes()).unwrap(), g);
    assert!(Point::from_bytes(&[2u8; 32]).is_none());
}

#[test]
fn decode_reports_each_error() {
    let x = generate_random_number().unwrap();
    let y = Point::mul_base(&x);
    let rec = DLogProof::prove("sid", 1, x, y).unwrap().encode();
    let bad_hex = ProofRecord { t: "zz".to_string(), s: rec.s.clone() };
    assert_eq!(DLogProof::decode(&bad_hex), Err(DlogError::Decoding(DecodingError::InvalidHex)));
    let odd = ProofRecord { t: rec.t.clone(), s: "abc".to_string() };
    assert_eq!(DLogProof::decode(&odd), Err(DlogError::Decoding(DecodingError::InvalidHex)));
    let short = ProofRecord { t: rec.t[..64].to_string(), s: rec.s.clone() };
    assert_eq!(DLogProof::decode(&short), Err(DlogError::Decoding(DecodingError::WrongLength)));
    let short_s = ProofRecord { t: rec.t.clone(), s: rec.s[..62].to_string() };
    assert_eq!(DLogProof::decode(&short_s), Err(DlogError::Decoding(DecodingError::WrongLength)));
    let not_point = ProofRecord { t: format!("04{}", &rec.t[2..]), s: rec.s.clone() };
    assert_eq!(DLogProof::decode(&not_point), Err(DlogError::Decoding(DecodingError::InvalidPoint)));
    let big = ProofRecord { t: rec.t.clone(), s: "f".repeat(64) };
    assert_eq!(DLogProof::decode(&big), Err(DlogError::Decoding(DecodingError::InvalidScalar)));
    let upper = ProofRecord { t: rec.t.to_uppercase(), s: rec.s.to_uppercase() };
    assert_eq!(DLogProof::decode(&upper).unwrap().encode().t, rec.t);
}

#[test]
fn random_scalars_are_in_range_and_fresh() {
    let a = generate_random_number().unwrap();
    let b = generate_random_number().unwrap();
    assert_eq!(a.to_bytes().len(), 32);
    assert!(Scalar::from_bytes(&a.to_bytes()).is_some());
    assert_ne!(a, b);
}

