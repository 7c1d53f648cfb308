use script_dom::hybrid_kem::{
    c2pri_combiner, expand_decaps_key_g, seed_expands, DecapsulationError, EncapsulateDeterministic,
    HybridKemDecapsulationKey, HybridKemEncapsulationKey, HybridKemParameter, MlKem1024P384,
    MlKem768P256, NominalGroup, PostQuantumKem, RandomScalar,
};

use kem::{Decapsulate, KeyExport};
use sha3::Digest;
use shake::ExtendableOutput;

fn seed(byte: u8) -> Vec<u8> {
    vec![byte; 32]
}

fn shake(data: &[u8], len: usize) -> Vec<u8> {
    let mut out = vec![0u8; len];
    shake::Shake256::digest_xof(data, &mut out);
    out
}

#[test]
fn mlkem768_p256_round_trip() {
    let dk = HybridKemDecapsulationKey::<MlKem768P256>::try_new(&seed(1)).unwrap();
    let ek = dk.encapsulation_key();
    let (ss, ct) = ek.encapsulate_deterministic(&[9u8; 32], &[7u8; 128]);
    assert_eq!(ss.len(), 32);
    assert_eq!(ct.len(), 1088 + 65);
    let recovered = dk.try_decapsulate(&ct).unwrap();
    assert_eq!(recovered, ss);
}

#[test]
fn mlkem1024_p384_round_trip() {
    let dk = HybridKemDecapsulationKey::<MlKem1024P384>::try_new(&seed(2)).unwrap();
    let ek = dk.encapsulation_key();
    let (ss, ct) = ek.encapsulate_deterministic(&[3u8; 32], &[5u8; 48]);
    assert_eq!(ss.len(), 32);
    assert_eq!(ct.len(), 1568 + 97);
    let recovered = dk.try_decapsulate(&ct).unwrap();
    assert_eq!(recovered, ss);
}

#[test]
fn different_randomness_gives_different_secrets() {
    let dk = HybridKemDecapsulationKey::<MlKem768P256>::try_new(&seed(1)).unwrap();
    let ek = dk.encapsulation_key();
    let (ss1, ct1) = ek.encapsulate_deterministic(&[9u8; 32], &[7u8; 128]);
    let (ss2, ct2) = ek.encapsulate_deterministic(&[10u8; 32], &[7u8; 128]);
    assert_ne!(ss1, ss2);
    assert_ne!(ct1, ct2);
    let (ss3, ct3) = ek.encapsulate_deterministic(&[9u8; 32], &[7u8; 128]);
    assert_eq!(ss1, ss3);
    assert_eq!(ct1, ct3);
}

#[test]
fn decapsulation_key_exposes_its_seed() {
    let dk = HybridKemDecapsulationKey::<MlKem768P256>::new(&seed(4));
    assert_eq!(dk.as_bytes(), &seed(4)[..]);
    let dk = HybridKemDecapsulationKey::<MlKem1024P384>::new(&seed(4));
    assert_eq!(dk.as_bytes(), &seed(4)[..]);
}

#[test]
fn derived_encapsulation_key_matches_components() {
    let s = seed(6);
    let dk = HybridKemDecapsulationKey::<MlKem768P256>::new(&s);
    let bytes = dk.encapsulation_key().to_bytes();
    assert_eq!(bytes.len(), 1249);

    let full = shake(&s, 64 + 128);
    let pq = ml_kem::DecapsulationKey768::from_seed(ml_kem::Seed::try_from(&full[..64]).unwrap());
    assert_eq!(&bytes[..1184], &pq.encapsulation_key().to_bytes()[..]);

    let sk = (0..4)
        .map(|i| &full[64 + 32 * i..64 + 32 * (i + 1)])
        .find_map(|chunk| p256::SecretKey::from_slice(chunk).ok())
        .unwrap();
    assert_eq!(&bytes[1184..], &sk.public_key().to_sec1_bytes()[..]);
}

#[test]
fn encapsulation_key_bytes_round_trip() {
    let dk = HybridKemDecapsulationKey::<MlKem768P256>::new(&seed(8));
    let bytes = dk.encapsulation_key().to_bytes();
    let ek = HybridKemEncapsulationKey::<MlKem768P256>::new(&bytes).unwrap();
    assert_eq!(ek.to_bytes(), bytes);

    let dk = HybridKemDecapsulationKey::<MlKem1024P384>::new(&seed(8));
    let bytes = dk.encapsulation_key().to_bytes();
    assert_eq!(bytes.len(), 1665);
    let ek = HybridKemEncapsulationKey::<MlKem1024P384>::new(&bytes).unwrap();
    assert_eq!(ek.to_bytes(), bytes);
}

#[test]
fn encapsulation_key_rejects_invalid_point() {
    let dk = HybridKemDecapsulationKey::<MlKem768P256>::new(&seed(8));
    let mut bytes = dk.encapsulation_key().to_bytes();
    for b in bytes[1184..].iter_mut() {
        *b = 0;
    }
    assert!(HybridKemEncapsulationKey::<MlKem768P256>::new(&bytes).is_err());
    let mut bytes = dk.encapsulation_key().to_bytes();
    bytes[1184 + 64] ^= 1;
    assert!(HybridKemEncapsulationKey::<MlKem768P256>::new(&bytes).is_err());
}

#[test]
fn encapsulation_key_rejects_unreduced_coefficients() {
    let dk = HybridKemDecapsulationKey::<MlKem1024P384>::new(&seed(8));
    let mut bytes = dk.encapsulation_key().to_bytes();
    // The first coefficient becomes 0xfff, above q = 3329.
    bytes[0] = 0xff;
    bytes[1] |= 0x0f;
    assert!(HybridKemEncapsulationKey::<MlKem1024P384>::new(&bytes).is_err());
}

#[test]
fn decapsulation_rejects_invalid_point() {
    let dk = HybridKemDecapsulationKey::<MlKem768P256>::new(&seed(1));
    let (_ss, mut ct) = dk.encapsulation_key().encapsulate_deterministic(&[9u8; 32], &[7u8; 128]);
    for b in ct[1088..].iter_mut() {
        *b = 0;
    }
    let res: Result<Vec<u8>, DecapsulationError> = dk.try_decapsulate(&ct);
    assert!(res.is_err());
}

#[test]
fn tampered_pq_ciphertext_gives_another_secret() {
    let dk = HybridKemDecapsulationKey::<MlKem768P256>::new(&seed(1));
    let (ss, mut ct) = dk.encapsulation_key().encapsulate_deterministic(&[9u8; 32], &[7u8; 128]);
    ct[0] ^= 1;
    let other = dk.try_decapsulate(&ct).unwrap();
    assert_ne!(other, ss);
}

#[test]
fn ciphertext_and_secret_match_components() {
    let dk = HybridKemDecapsulationKey::<MlKem768P256>::new(&seed(1));
    let ek_bytes = dk.encapsulation_key().to_bytes();
    let r_pq = [9u8; 32];
    let r_t = [7u8; 128];
    let (ss, ct) = dk.encapsulation_key().encapsulate_deterministic(&r_pq, &r_t);

    let key = ml_kem::array::Array::try_from(&ek_bytes[..1184]).unwrap();
    let ek_pq = ml_kem::EncapsulationKey768::new(&key).unwrap();
    let (ct_pq, ss_pq) = ek_pq.encapsulate_deterministic(&ml_kem::B32::try_from(&r_pq[..]).unwrap());
    assert_eq!(&ct[..1088], &ct_pq[..]);

    let sk_e = p256::SecretKey::from_slice(&r_t[..32]).unwrap();
    let ct_t = sk_e.public_key().to_sec1_bytes();
    assert_eq!(&ct[1088..], &ct_t[..]);

    let ek_t = p256::PublicKey::from_sec1_bytes(&ek_bytes[1184..]).unwrap();
    let ss_t = sk_e.diffie_hellman(&ek_t);
    let mut hasher = sha3::Sha3_256::default();
    sha3::Digest::update(&mut hasher, &ss_pq);
    sha3::Digest::update(&mut hasher, ss_t.raw_secret_bytes());
    sha3::Digest::update(&mut hasher, &ct_t);
    sha3::Digest::update(&mut hasher, &ek_bytes[1184..]);
    sha3::Digest::update(&mut hasher, b"MLKEM768-P256");
    assert_eq!(ss, hasher.finalize().to_vec());
}

#[test]
fn decapsulation_matches_components() {
    let s = seed(11);
    let dk = HybridKemDecapsulationKey::<MlKem768P256>::new(&s);
    let (_ss, ct) = dk.encapsulation_key().encapsulate_deterministic(&[1u8; 32], &[2u8; 128]);
    let full = shake(&s, 64 + 128);
    let pq = ml_kem::DecapsulationKey768::from_seed(ml_kem::Seed::try_from(&full[..64]).unwrap());
    let ss_pq = pq.decapsulate(&ml_kem::array::Array::try_from(&ct[..1088]).unwrap());
    let (ek_pq, ek_t, dk_pq, dk_t) = expand_decaps_key_g::<MlKem768P256>(&s);
    assert_eq!(ek_pq.len(), 1184);
    assert_eq!(dk_pq, full[..64].to_vec());
    let ss_t = <p256::NistP256 as NominalGroup>::shared_secret(&dk_t, &ct[1088..]);
    let expected = c2pri_combiner::<MlKem768P256>(&ss_pq, &ss_t, &ct[1088..], &ek_t, b"MLKEM768-P256");
    assert_eq!(dk.try_decapsulate(&ct).unwrap(), expected);
}

#[test]
fn c2pri_combiner_hashes_the_concatenation() {
    let out = c2pri_combiner::<MlKem768P256>(b"a", b"bc", b"", b"d", b"LABEL");
    assert_eq!(out, sha3::Sha3_256::digest(b"abcdLABEL").to_vec());
    assert_ne!(out, b"abcdLABEL".to_vec());
}

#[test]
fn labels_name_the_parameter_sets() {
    assert_eq!(MlKem768P256::label(), b"MLKEM768-P256".to_vec());
    assert_eq!(MlKem1024P384::label(), b"MLKEM1024-P384".to_vec());
}

#[test]
fn prg_is_shake256() {
    let out = MlKem768P256::prg(b"seed", 40);
    assert_eq!(out, shake(b"seed", 40));
    assert_ne!(out, b"seed".to_vec());
}

#[test]
fn random_scalar_takes_first_chunk() {
    let mut s = [0u8; 128];
    s[31] = 5;
    s[63] = 6;
    let sk = <p256::NistP256 as RandomScalar>::random_scalar(&s).unwrap();
    assert_eq!(sk, s[..32].to_vec());
}

#[test]
fn random_scalar_skips_rejected_chunks() {
    let mut s = [0u8; 128];
    // chunk 0 is zero, chunk 1 is at least the order, chunk 2 is 1
    for b in s[32..64].iter_mut() {
        *b = 0xff;
    }
    s[95] = 1;
    let sk = <p256::NistP256 as RandomScalar>::random_scalar(&s).unwrap();
    assert_eq!(sk, s[64..96].to_vec());
}

#[test]
fn random_scalar_fails_when_every_chunk_is_rejected() {
    assert!(<p256::NistP256 as RandomScalar>::random_scalar(&[0u8; 128]).is_none());
    assert!(<p384::NistP384 as RandomScalar>::random_scalar(&[0xffu8; 48]).is_none());
    let one = {
        let mut s = [0u8; 48];
        s[47] = 1;
        s
    };
    assert_eq!(<p384::NistP384 as RandomScalar>::random_scalar(&one).unwrap(), one.to_vec());
}

#[test]
fn group_and_kem_sizes() {
    assert_eq!(<p256::NistP256 as NominalGroup>::scalar_size(), 32);
    assert_eq!(<p256::NistP256 as NominalGroup>::element_size(), 65);
    assert_eq!(<p384::NistP384 as NominalGroup>::scalar_size(), 48);
    assert_eq!(<p384::NistP384 as NominalGroup>::element_size(), 97);
    assert_eq!(<p256::NistP256 as RandomScalar>::seed_size(), 128);
    assert_eq!(<p384::NistP384 as RandomScalar>::seed_size(), 48);
    assert_eq!(<ml_kem::MlKem768 as PostQuantumKem>::encapsulation_key_size(), 1184);
    assert_eq!(<ml_kem::MlKem768 as PostQuantumKem>::ciphertext_size(), 1088);
    assert_eq!(<ml_kem::MlKem1024 as PostQuantumKem>::encapsulation_key_size(), 1568);
    assert_eq!(<ml_kem::MlKem1024 as PostQuantumKem>::ciphertext_size(), 1568);
    assert_eq!(<ml_kem::MlKem768 as EncapsulateDeterministic>::randomness_size(), 32);
    assert_eq!(MlKem768P256::decapsulation_key_size(), 32);
}

#[test]
fn decapsulation_error_text() {
    assert_eq!(DecapsulationError.to_string(), "DecapsulationError");
    let err: Result<[u8; 2], _> = <[u8; 2]>::try_from(&[1u8, 2, 3][..]);
    let e: DecapsulationError = DecapsulationError::from(err.unwrap_err());
    assert_eq!(e.to_string(), "DecapsulationError");
}

#[test]
fn seeds_expand() {
    assert!(seed_expands::<MlKem768P256>(&seed(1)));
    assert!(seed_expands::<MlKem1024P384>(&seed(2)));
}

#[test]
fn ciphertext_point_is_uncompressed() {
    let dk = HybridKemDecapsulationKey::<MlKem1024P384>::new(&seed(3));
    let (_ss, ct) = dk.encapsulation_key().encapsulate_deterministic(&[1u8; 32], &[4u8; 48]);
    assert_eq!(ct[1568], 0x04);
    let other = HybridKemDecapsulationKey::<MlKem1024P384>::new(&seed(9));
    let (_ss2, ct2) = other.encapsulation_key().encapsulate_deterministic(&[2u8; 32], &[4u8; 48]);
    assert_eq!(ct[1568..], ct2[1568..]);
    assert_eq!(dk.encapsulation_key().to_bytes()[1568], 0x04);
}
