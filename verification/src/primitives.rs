//! Trusted boundary to the outside cryptographic crates: SHA3-256 and
//! SHAKE256 (`sha3`, `shake`), ML-KEM-768 and ML-KEM-1024 (`ml-kem`), and the
//! P-256 and P-384 groups (`p256`, `p384` over `elliptic-curve`). Every value
//! crosses this boundary as bytes.

use vstd::prelude::*;
use crate::encoding::{
    mlkem_encapsulation_key_checked, p256_order, p256_point_valid, p384_order, p384_point_valid,
    scalar_in_range,
};
use kem::{Decapsulate, KeyExport};
use sha3::Digest;
use shake::ExtendableOutput;

verus! {

// ----- hash functions -----

/// The SHA3-256 digest of a byte string.
pub uninterp spec fn spec_sha3_256(data: Seq<u8>) -> Seq<u8>;

/// The first `len` bytes of the SHAKE256 output stream on `data`.
pub uninterp spec fn spec_shake256(data: Seq<u8>, len: nat) -> Seq<u8>;

/// Calls `sha3::Sha3_256::digest`. Trusted: the result is the SHA3-256
/// digest of `data`, 32 bytes long.
#[verifier::external_body]
pub(crate) fn sha3_256(data: &[u8]) -> (res: Vec<u8>)
    ensures
        res@ == spec_sha3_256(data@),
        res@.len() == 32,
{
    sha3::Sha3_256::digest(data).to_vec()
}

/// Calls `shake::Shake256::digest_xof`, reading `len` bytes of the output
/// stream in one read. Trusted: the result is those `len` bytes.
#[verifier::external_body]
pub(crate) fn shake256(data: &[u8], len: usize) -> (res: Vec<u8>)
    ensures
        res@ == spec_shake256(data@, len as nat),
        res@.len() == len,
{
    let mut out = vec![0u8; len];
    shake::Shake256::digest_xof(data, &mut out);
    out
}

// ----- ML-KEM-768 -----

/// The encapsulation key that ML-KEM-768 derives from a 64-byte seed `d || z`.
pub uninterp spec fn spec_mlkem768_derive_encapsulation_key(seed: Seq<u8>) -> Seq<u8>;

/// ML-KEM-768 encapsulation of `ek` with message randomness `m`:
/// (ciphertext, shared key).
pub uninterp spec fn spec_mlkem768_encapsulate(ek: Seq<u8>, m: Seq<u8>) -> (Seq<u8>, Seq<u8>);

/// ML-KEM-768 decapsulation of `ct` by the key derived from `seed`.
pub uninterp spec fn spec_mlkem768_decapsulate(seed: Seq<u8>, ct: Seq<u8>) -> Seq<u8>;

/// Calls `ml_kem::DecapsulationKey768::from_seed` and exports the
/// corresponding encapsulation key. Trusted: the 1184-byte result is named
/// by the seed, and its coefficients are reduced (it is the encoding of a
/// vector of field elements), so it passes the encapsulation key check.
#[verifier::external_body]
pub(crate) fn mlkem768_derive_encapsulation_key(seed: &[u8]) -> (ek: Vec<u8>)
    requires
        seed@.len() == 64,
    ensures
        ek@ == spec_mlkem768_derive_encapsulation_key(seed@),
        mlkem_encapsulation_key_checked(ek@, 3),
{
    let seed = ml_kem::Seed::try_from(seed).expect("64-byte seed");
    ml_kem::DecapsulationKey768::from_seed(seed).encapsulation_key().to_bytes().to_vec()
}

/// Calls `ml_kem::EncapsulationKey768::new` and `KeyExport::to_bytes` on the
/// key it decodes. Trusted: it accepts the 1184-byte key exactly when the
/// FIPS 203 modulus check passes, and an accepted key encodes back to the
/// same bytes (the check compares exactly that).
#[verifier::external_body]
pub(crate) fn mlkem768_decode_encapsulation_key(ek: &[u8]) -> (key: Option<Vec<u8>>)
    requires
        ek@.len() == 1184,
    ensures
        key is Some <==> mlkem_encapsulation_key_checked(ek@, 3),
        key matches Some(key) ==> key@ == ek@,
{
    let bytes = ml_kem::array::Array::try_from(ek).expect("1184-byte key");
    match ml_kem::EncapsulationKey768::new(&bytes) {
        Ok(key) => Some(key.to_bytes().to_vec()),
        Err(_) => None,
    }
}

/// Calls `ml_kem::EncapsulationKey768::encapsulate_deterministic`. Trusted:
/// the result (1088-byte ciphertext, 32-byte shared key) is named by the key
/// and the randomness.
#[verifier::external_body]
pub(crate) fn mlkem768_encapsulate(ek: &[u8], m: &[u8]) -> (res: (Vec<u8>, Vec<u8>))
    requires
        mlkem_encapsulation_key_checked(ek@, 3),
        m@.len() == 32,
    ensures
        (res.0@, res.1@) == spec_mlkem768_encapsulate(ek@, m@),
        res.0@.len() == 1088,
        res.1@.len() == 32,
{
    let key = ml_kem::array::Array::try_from(ek).expect("1184-byte key");
    let key = ml_kem::EncapsulationKey768::new(&key).expect("checked key");
    let (ct, ss) = key.encapsulate_deterministic(&ml_kem::B32::try_from(m).expect("32 bytes"));
    (ct.to_vec(), ss.to_vec())
}

/// Calls `Decapsulate::decapsulate` on `ml_kem::DecapsulationKey768::from_seed`.
/// Trusted: the 32-byte result is named by the seed and the ciphertext.
#[verifier::external_body]
pub(crate) fn mlkem768_decapsulate(seed: &[u8], ct: &[u8]) -> (ss: Vec<u8>)
    requires
        seed@.len() == 64,
        ct@.len() == 1088,
    ensures
        ss@ == spec_mlkem768_decapsulate(seed@, ct@),
        ss@.len() == 32,
{
    let seed = ml_kem::Seed::try_from(seed).expect("64-byte seed");
    let ct = ml_kem::array::Array::try_from(ct).expect("1088-byte ciphertext");
    ml_kem::DecapsulationKey768::from_seed(seed).decapsulate(&ct).to_vec()
}

// ----- ML-KEM-1024 -----

/// The encapsulation key that ML-KEM-1024 derives from a 64-byte seed `d || z`.
pub uninterp spec fn spec_mlkem1024_derive_encapsulation_key(seed: Seq<u8>) -> Seq<u8>;

/// ML-KEM-1024 encapsulation of `ek` with message randomness `m`:
/// (ciphertext, shared key).
pub uninterp spec fn spec_mlkem1024_encapsulate(ek: Seq<u8>, m: Seq<u8>) -> (Seq<u8>, Seq<u8>);

/// ML-KEM-1024 decapsulation of `ct` by the key derived from `seed`.
pub uninterp spec fn spec_mlkem1024_decapsulate(seed: Seq<u8>, ct: Seq<u8>) -> Seq<u8>;

/// Calls `ml_kem::DecapsulationKey1024::from_seed` and exports the
/// corresponding encapsulation key. Trusted: the 1568-byte result is named
/// by the seed, and it passes the encapsulation key check.
#[verifier::external_body]
pub(crate) fn mlkem1024_derive_encapsulation_key(seed: &[u8]) -> (ek: Vec<u8>)
    requires
        seed@.len() == 64,
    ensures
        ek@ == spec_mlkem1024_derive_encapsulation_key(seed@),
        mlkem_encapsulation_key_checked(ek@, 4),
{
    let seed = ml_kem::Seed::try_from(seed).expect("64-byte seed");
    ml_kem::DecapsulationKey1024::from_seed(seed).encapsulation_key().to_bytes().to_vec()
}

/// Calls `ml_kem::EncapsulationKey1024::new` and `KeyExport::to_bytes` on the
/// key it decodes. Trusted: it accepts the 1568-byte key exactly when the
/// FIPS 203 modulus check passes, and an accepted key encodes back to the
/// same bytes (the check compares exactly that).
#[verifier::external_body]
pub(crate) fn mlkem1024_decode_encapsulation_key(ek: &[u8]) -> (key: Option<Vec<u8>>)
    requires
        ek@.len() == 1568,
    ensures
        key is Some <==> mlkem_encapsulation_key_checked(ek@, 4),
        key matches Some(key) ==> key@ == ek@,
{
    let bytes = ml_kem::array::Array::try_from(ek).expect("1568-byte key");
    match ml_kem::EncapsulationKey1024::new(&bytes) {
        Ok(key) => Some(key.to_bytes().to_vec()),
        Err(_) => None,
    }
}

/// Calls `ml_kem::EncapsulationKey1024::encapsulate_deterministic`. Trusted:
/// the result (1568-byte ciphertext, 32-byte shared key) is named by the key
/// and the randomness.
#[verifier::external_body]
pub(crate) fn mlkem1024_encapsulate(ek: &[u8], m: &[u8]) -> (res: (Vec<u8>, Vec<u8>))
    requires
        mlkem_encapsulation_key_checked(ek@, 4),
        m@.len() == 32,
    ensures
        (res.0@, res.1@) == spec_mlkem1024_encapsulate(ek@, m@),
        res.0@.len() == 1568,
        res.1@.len() == 32,
{
    let key = ml_kem::array::Array::try_from(ek).expect("1568-byte key");
    let key = ml_kem::EncapsulationKey1024::new(&key).expect("checked key");
    let (ct, ss) = key.encapsulate_deterministic(&ml_kem::B32::try_from(m).expect("32 bytes"));
    (ct.to_vec(), ss.to_vec())
}

/// Calls `Decapsulate::decapsulate` on `ml_kem::DecapsulationKey1024::from_seed`.
/// Trusted: the 32-byte result is named by the seed and the ciphertext.
#[verifier::external_body]
pub(crate) fn mlkem1024_decapsulate(seed: &[u8], ct: &[u8]) -> (ss: Vec<u8>)
    requires
        seed@.len() == 64,
        ct@.len() == 1568,
    ensures
        ss@ == spec_mlkem1024_decapsulate(seed@, ct@),
        ss@.len() == 32,
{
    let seed = ml_kem::Seed::try_from(seed).expect("64-byte seed");
    let ct = ml_kem::array::Array::try_from(ct).expect("1568-byte ciphertext");
    ml_kem::DecapsulationKey1024::from_seed(seed).decapsulate(&ct).to_vec()
}

// ----- P-256 -----

/// The uncompressed SEC1 encoding of `sk * G` on P-256.
pub uninterp spec fn spec_p256_public_key(sk: Seq<u8>) -> Seq<u8>;

/// The x-coordinate (32 bytes, big-endian) of `sk * P` on P-256.
pub uninterp spec fn spec_p256_diffie_hellman(sk: Seq<u8>, point: Seq<u8>) -> Seq<u8>;

/// Calls `p256::SecretKey::from_bytes`. Trusted: it accepts the 32-byte
/// big-endian scalar exactly when it is neither zero nor at least the group
/// order.
#[verifier::external_body]
pub(crate) fn p256_secret_key_accepted(sk: &[u8]) -> (ok: bool)
    requires
        sk@.len() == 32,
    ensures
        ok == scalar_in_range(sk@, p256_order()),
{
    p256::SecretKey::from_bytes(&p256::FieldBytes::try_from(sk).expect("32 bytes")).is_ok()
}

/// Calls `p256::SecretKey::public_key` and `PublicKey::to_sec1_bytes`.
/// Trusted: the result is named by the scalar; it is a valid uncompressed
/// point; and Diffie-Hellman agrees: for every other valid scalar `o`,
/// `o * (sk * G)` and `sk * (o * G)` have the same x-coordinate.
#[verifier::external_body]
pub(crate) fn p256_public_key(sk: &[u8]) -> (pk: Vec<u8>)
    requires
        sk@.len() == 32,
        scalar_in_range(sk@, p256_order()),
    ensures
        pk@ == spec_p256_public_key(sk@),
        p256_point_valid(pk@),
        forall|o: Seq<u8>|
            o.len() == 32 && scalar_in_range(o, p256_order()) ==> #[trigger] spec_p256_diffie_hellman(o, pk@)
                == spec_p256_diffie_hellman(sk@, spec_p256_public_key(o)),
{
    let sk = p256::SecretKey::from_bytes(&p256::FieldBytes::try_from(sk).expect("32 bytes"));
    sk.expect("valid scalar").public_key().to_sec1_bytes().to_vec()
}

/// Calls `p256::PublicKey::from_sec1_bytes` on a 65-byte input and
/// `PublicKey::to_sec1_bytes` on the key it decodes. Trusted: it accepts
/// exactly the uncompressed encodings of points on the curve with canonical
/// coordinates, and such a point encodes back to the same bytes.
#[verifier::external_body]
pub(crate) fn p256_decode_point(bytes: &[u8]) -> (point: Option<Vec<u8>>)
    requires
        bytes@.len() == 65,
    ensures
        point is Some <==> p256_point_valid(bytes@),
        point matches Some(p) ==> p@ == bytes@,
{
    match p256::PublicKey::from_sec1_bytes(bytes) {
        Ok(point) => Some(point.to_sec1_bytes().to_vec()),
        Err(_) => None,
    }
}

/// Calls `p256::SecretKey::diffie_hellman` and `SharedSecret::raw_secret_bytes`.
/// Trusted: the 32-byte result is named by the scalar and the point.
#[verifier::external_body]
pub(crate) fn p256_diffie_hellman(sk: &[u8], point: &[u8]) -> (ss: Vec<u8>)
    requires
        sk@.len() == 32,
        scalar_in_range(sk@, p256_order()),
        p256_point_valid(point@),
    ensures
        ss@ == spec_p256_diffie_hellman(sk@, point@),
        ss@.len() == 32,
{
    let sk = p256::SecretKey::from_bytes(&p256::FieldBytes::try_from(sk).expect("32 bytes"));
    let point = p256::PublicKey::from_sec1_bytes(point).expect("valid point");
    sk.expect("valid scalar").diffie_hellman(&point).raw_secret_bytes().to_vec()
}

// ----- P-384 -----

/// The uncompressed SEC1 encoding of `sk * G` on P-384.
pub uninterp spec fn spec_p384_public_key(sk: Seq<u8>) -> Seq<u8>;

/// The x-coordinate (48 bytes, big-endian) of `sk * P` on P-384.
pub uninterp spec fn spec_p384_diffie_hellman(sk: Seq<u8>, point: Seq<u8>) -> Seq<u8>;

/// Calls `p384::SecretKey::from_bytes`. Trusted: it accepts the 48-byte
/// big-endian scalar exactly when it is neither zero nor at least the group
/// order.
#[verifier::external_body]
pub(crate) fn p384_secret_key_accepted(sk: &[u8]) -> (ok: bool)
    requires
        sk@.len() == 48,
    ensures
        ok == scalar_in_range(sk@, p384_order()),
{
    p384::SecretKey::from_bytes(&p384::FieldBytes::try_from(sk).expect("48 bytes")).is_ok()
}

/// Calls `p384::SecretKey::public_key` and `PublicKey::to_sec1_bytes`.
/// Trusted: the result is named by the scalar; it is a valid uncompressed
/// point; and Diffie-Hellman agrees: for every other valid scalar `o`,
/// `o * (sk * G)` and `sk * (o * G)` have the same x-coordinate.
#[verifier::external_body]
pub(crate) fn p384_public_key(sk: &[u8]) -> (pk: Vec<u8>)
    requires
        sk@.len() == 48,
        scalar_in_range(sk@, p384_order()),
    ensures
        pk@ == spec_p384_public_key(sk@),
        p384_point_valid(pk@),
        forall|o: Seq<u8>|
            o.len() == 48 && scalar_in_range(o, p384_order()) ==> #[trigger] spec_p384_diffie_hellman(o, pk@)
                == spec_p384_diffie_hellman(sk@, spec_p384_public_key(o)),
{
    let sk = p384::SecretKey::from_bytes(&p384::FieldBytes::try_from(sk).expect("48 bytes"));
    sk.expect("valid scalar").public_key().to_sec1_bytes().to_vec()
}

/// Calls `p384::PublicKey::from_sec1_bytes` on a 97-byte input and
/// `PublicKey::to_sec1_bytes` on the key it decodes. Trusted: it accepts
/// exactly the uncompressed encodings of points on the curve with canonical
/// coordinates, and such a point encodes back to the same bytes.
#[verifier::external_body]
pub(crate) fn p384_decode_point(bytes: &[u8]) -> (point: Option<Vec<u8>>)
    requires
        bytes@.len() == 97,
    ensures
        point is Some <==> p384_point_valid(bytes@),
        point matches Some(p) ==> p@ == bytes@,
{
    match p384::PublicKey::from_sec1_bytes(bytes) {
        Ok(point) => Some(point.to_sec1_bytes().to_vec()),
        Err(_) => None,
    }
}

/// Calls `p384::SecretKey::diffie_hellman` and `SharedSecret::raw_secret_bytes`.
/// Trusted: the 48-byte result is named by the scalar and the point.
#[verifier::external_body]
pub(crate) fn p384_diffie_hellman(sk: &[u8], point: &[u8]) -> (ss: Vec<u8>)
    requires
        sk@.len() == 48,
        scalar_in_range(sk@, p384_order()),
        p384_point_valid(point@),
    ensures
        ss@ == spec_p384_diffie_hellman(sk@, point@),
        ss@.len() == 48,
{
    let sk = p384::SecretKey::from_bytes(&p384::FieldBytes::try_from(sk).expect("48 bytes"));
    let point = p384::PublicKey::from_sec1_bytes(point).expect("valid point");
    sk.expect("valid scalar").diffie_hellman(&point).raw_secret_bytes().to_vec()
}

} // verus!
