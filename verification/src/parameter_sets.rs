//! What each parameter set computes, stated with the primitives themselves:
//! MLKEM768-P256 is ML-KEM-768, P-256, SHAKE256 and SHA3-256;
//! MLKEM1024-P384 is ML-KEM-1024, P-384, SHAKE256 and SHA3-256.

use vstd::prelude::*;
use crate::encoding::{
    first_accepted_scalar, mlkem_encapsulation_key_checked, p256_order, p256_point_valid, p384_order,
    p384_point_valid,
};
use crate::hybrid_kem::{
    spec_c2pri_combiner, spec_decapsulate, spec_encapsulate, spec_expand_decaps_key, spec_random_scalar,
    DecapsulationError, EncapsulateDeterministic, HybridKemParameter, MlKem1024P384, MlKem768P256,
    NominalGroup, PostQuantumKem, RandomScalar,
};
use crate::primitives::{
    spec_mlkem1024_decapsulate, spec_mlkem1024_derive_encapsulation_key, spec_mlkem1024_encapsulate,
    spec_mlkem768_decapsulate, spec_mlkem768_derive_encapsulation_key, spec_mlkem768_encapsulate,
    spec_p256_diffie_hellman, spec_p256_public_key, spec_p384_diffie_hellman, spec_p384_public_key,
    spec_sha3_256, spec_shake256,
};

verus! {

// ----- MlKem768P256 -----

/// The ML-KEM-768 component: its key derivation, key check, encapsulation
/// and decapsulation are the ML-KEM-768 primitives applied to the seed, key,
/// randomness and ciphertext exactly as given (the seed as `d || z`).
pub proof fn law_768_kem_component(seed: Seq<u8>, ek: Seq<u8>, randomness: Seq<u8>, ct: Seq<u8>)
    ensures
        <ml_kem::MlKem768 as PostQuantumKem>::spec_derive_encapsulation_key(seed)
            == spec_mlkem768_derive_encapsulation_key(seed),
        <ml_kem::MlKem768 as PostQuantumKem>::spec_decapsulate(seed, ct) == spec_mlkem768_decapsulate(seed, ct),
        <ml_kem::MlKem768 as EncapsulateDeterministic>::spec_encapsulate(ek, randomness)
            == spec_mlkem768_encapsulate(ek, randomness),
        <ml_kem::MlKem768 as PostQuantumKem>::spec_encapsulation_key_checked(ek)
            == mlkem_encapsulation_key_checked(ek, 3),
        <ml_kem::MlKem768 as PostQuantumKem>::spec_seed_size() == 64,
        <ml_kem::MlKem768 as PostQuantumKem>::spec_ciphertext_size() == 1088,
        <ml_kem::MlKem768 as EncapsulateDeterministic>::spec_randomness_size() == 32,
{
}

/// The P256 component: public keys, Diffie-Hellman, element validity
/// and RandomScalar are the P256 primitives, with 32-byte scalars below
/// the group order drawn from 128 bytes of seed.
pub proof fn law_p256_group_component(scalar: Seq<u8>, element: Seq<u8>, seed: Seq<u8>)
    ensures
        <p256::NistP256 as NominalGroup>::spec_exp_generator(scalar) == spec_p256_public_key(scalar),
        <p256::NistP256 as NominalGroup>::spec_shared_secret(scalar, element)
            == spec_p256_diffie_hellman(scalar, element),
        <p256::NistP256 as NominalGroup>::spec_element_valid(element) == p256_point_valid(element),
        spec_random_scalar::<p256::NistP256>(seed) == first_accepted_scalar(seed, 32, p256_order()),
        <p256::NistP256 as RandomScalar>::spec_seed_size() == 128,
        <p256::NistP256 as NominalGroup>::spec_element_size() == 65,
{
}

/// The C2PRI combiner of MlKem768P256 is SHA3-256 over
/// `ss_PQ || ss_T || ct_T || ek_T || label`, in that order.
pub proof fn law_mlkem768p256_combiner(ss_pq: Seq<u8>, ss_t: Seq<u8>, ct_t: Seq<u8>, ek_t: Seq<u8>, label: Seq<u8>)
    ensures
        spec_c2pri_combiner::<MlKem768P256>(ss_pq, ss_t, ct_t, ek_t, label) == spec_sha3_256(
            ss_pq + ss_t + ct_t + ek_t + label,
        ),
        MlKem768P256::spec_label() == seq![0x4du8, 0x4c, 0x4b, 0x45, 0x4d, 0x37, 0x36, 0x38, 0x2d, 0x50, 0x32, 0x35, 0x36],
{
}

/// DeriveKeyPair(seed) of MlKem768P256: PRG is SHAKE256 with 192 output bytes; the
/// first 64 are the ML-KEM-768 seed, the next 128 feed RandomScalar on P256.
pub proof fn law_mlkem768p256_expand(seed: Seq<u8>)
    ensures
        spec_expand_decaps_key::<MlKem768P256>(seed) == (match first_accepted_scalar(
            spec_shake256(seed, 192).subrange(64, 192),
            32,
            p256_order(),
        ) {
            Some(dk_t) => Some(
                (
                    spec_mlkem768_derive_encapsulation_key(spec_shake256(seed, 192).subrange(0, 64)),
                    spec_p256_public_key(dk_t),
                    spec_shake256(seed, 192).subrange(0, 64),
                    dk_t,
                ),
            ),
            None => None,
        }),
{
}

/// Encaps of MlKem768P256 with randomness `(randomness_pq, randomness_t)`: the
/// ciphertext is the ML-KEM-768 ciphertext of `randomness_pq` followed by
/// the public key of the first accepted scalar of `randomness_t`, and the
/// shared secret is SHA3-256 of `ss_PQ || ss_T || ct_T || ek_T || label`.
pub proof fn law_mlkem768p256_encapsulate(ek_pq: Seq<u8>, ek_t: Seq<u8>, randomness_pq: Seq<u8>, randomness_t: Seq<u8>)
    ensures
        spec_encapsulate::<MlKem768P256>((ek_pq, ek_t), randomness_pq, randomness_t).1
            == spec_mlkem768_encapsulate(ek_pq, randomness_pq).0 + spec_p256_public_key(
            first_accepted_scalar(randomness_t, 32, p256_order()).unwrap(),
        ),
        spec_encapsulate::<MlKem768P256>((ek_pq, ek_t), randomness_pq, randomness_t).0 == spec_sha3_256(
            spec_mlkem768_encapsulate(ek_pq, randomness_pq).1 + spec_p256_diffie_hellman(
                first_accepted_scalar(randomness_t, 32, p256_order()).unwrap(),
                ek_t,
            ) + spec_p256_public_key(first_accepted_scalar(randomness_t, 32, p256_order()).unwrap()) + ek_t
                + seq![0x4du8, 0x4c, 0x4b, 0x45, 0x4d, 0x37, 0x36, 0x38, 0x2d, 0x50, 0x32, 0x35, 0x36],
        ),
{
}

/// Decaps of a key whose seed expands, for MlKem768P256: the ciphertext splits at byte 1088; it fails exactly
/// when the last 65 bytes are not a P256 point; otherwise the secret is
/// SHA3-256 of the ML-KEM-768 decapsulation (keyed by the first 64 bytes of
/// SHAKE256(seed)), the Diffie-Hellman value with the expanded scalar, ct_T,
/// ek_T and the label.
pub proof fn law_mlkem768p256_decapsulate(seed: Seq<u8>, ct: Seq<u8>)
    requires
        first_accepted_scalar(spec_shake256(seed, 192).subrange(64, 192), 32, p256_order()) is Some,
    ensures
        spec_decapsulate::<MlKem768P256>(seed, ct) is Err <==> !p256_point_valid(ct.subrange(1088, ct.len() as int)),
        p256_point_valid(ct.subrange(1088, ct.len() as int)) ==> spec_decapsulate::<MlKem768P256>(seed, ct)
            == Ok::<Seq<u8>, DecapsulationError>(
            spec_sha3_256(
                spec_mlkem768_decapsulate(spec_shake256(seed, 192).subrange(0, 64), ct.subrange(0, 1088))
                    + spec_p256_diffie_hellman(
                    first_accepted_scalar(spec_shake256(seed, 192).subrange(64, 192), 32, p256_order()).unwrap(),
                    ct.subrange(1088, ct.len() as int),
                ) + ct.subrange(1088, ct.len() as int) + spec_p256_public_key(
                    first_accepted_scalar(spec_shake256(seed, 192).subrange(64, 192), 32, p256_order()).unwrap(),
                ) + seq![0x4du8, 0x4c, 0x4b, 0x45, 0x4d, 0x37, 0x36, 0x38, 0x2d, 0x50, 0x32, 0x35, 0x36],
            ),
        ),
{
}

// ----- MlKem1024P384 -----

/// The ML-KEM-1024 component: its key derivation, key check, encapsulation
/// and decapsulation are the ML-KEM-1024 primitives applied to the seed, key,
/// randomness and ciphertext exactly as given (the seed as `d || z`).
pub proof fn law_1024_kem_component(seed: Seq<u8>, ek: Seq<u8>, randomness: Seq<u8>, ct: Seq<u8>)
    ensures
        <ml_kem::MlKem1024 as PostQuantumKem>::spec_derive_encapsulation_key(seed)
            == spec_mlkem1024_derive_encapsulation_key(seed),
        <ml_kem::MlKem1024 as PostQuantumKem>::spec_decapsulate(seed, ct) == spec_mlkem1024_decapsulate(seed, ct),
        <ml_kem::MlKem1024 as EncapsulateDeterministic>::spec_encapsulate(ek, randomness)
            == spec_mlkem1024_encapsulate(ek, randomness),
        <ml_kem::MlKem1024 as PostQuantumKem>::spec_encapsulation_key_checked(ek)
            == mlkem_encapsulation_key_checked(ek, 4),
        <ml_kem::MlKem1024 as PostQuantumKem>::spec_seed_size() == 64,
        <ml_kem::MlKem1024 as PostQuantumKem>::spec_ciphertext_size() == 1568,
        <ml_kem::MlKem1024 as EncapsulateDeterministic>::spec_randomness_size() == 32,
{
}

/// The P384 component: public keys, Diffie-Hellman, element validity
/// and RandomScalar are the P384 primitives, with 48-byte scalars below
/// the group order drawn from 48 bytes of seed.
pub proof fn law_p384_group_component(scalar: Seq<u8>, element: Seq<u8>, seed: Seq<u8>)
    ensures
        <p384::NistP384 as NominalGroup>::spec_exp_generator(scalar) == spec_p384_public_key(scalar),
        <p384::NistP384 as NominalGroup>::spec_shared_secret(scalar, element)
            == spec_p384_diffie_hellman(scalar, element),
        <p384::NistP384 as NominalGroup>::spec_element_valid(element) == p384_point_valid(element),
        spec_random_scalar::<p384::NistP384>(seed) == first_accepted_scalar(seed, 48, p384_order()),
        <p384::NistP384 as RandomScalar>::spec_seed_size() == 48,
        <p384::NistP384 as NominalGroup>::spec_element_size() == 97,
{
}

/// The C2PRI combiner of MlKem1024P384 is SHA3-256 over
/// `ss_PQ || ss_T || ct_T || ek_T || label`, in that order.
pub proof fn law_mlkem1024p384_combiner(ss_pq: Seq<u8>, ss_t: Seq<u8>, ct_t: Seq<u8>, ek_t: Seq<u8>, label: Seq<u8>)
    ensures
        spec_c2pri_combiner::<MlKem1024P384>(ss_pq, ss_t, ct_t, ek_t, label) == spec_sha3_256(
            ss_pq + ss_t + ct_t + ek_t + label,
        ),
        MlKem1024P384::spec_label() == seq![0x4du8, 0x4c, 0x4b, 0x45, 0x4d, 0x31, 0x30, 0x32, 0x34, 0x2d, 0x50, 0x33, 0x38, 0x34],
{
}

/// DeriveKeyPair(seed) of MlKem1024P384: PRG is SHAKE256 with 112 output bytes; the
/// first 64 are the ML-KEM-1024 seed, the next 48 feed RandomScalar on P384.
pub proof fn law_mlkem1024p384_expand(seed: Seq<u8>)
    ensures
        spec_expand_decaps_key::<MlKem1024P384>(seed) == (match first_accepted_scalar(
            spec_shake256(seed, 112).subrange(64, 112),
            48,
            p384_order(),
        ) {
            Some(dk_t) => Some(
                (
                    spec_mlkem1024_derive_encapsulation_key(spec_shake256(seed, 112).subrange(0, 64)),
                    spec_p384_public_key(dk_t),
                    spec_shake256(seed, 112).subrange(0, 64),
                    dk_t,
                ),
            ),
            None => None,
        }),
{
}

/// Encaps of MlKem1024P384 with randomness `(randomness_pq, randomness_t)`: the
/// ciphertext is the ML-KEM-1024 ciphertext of `randomness_pq` followed by
/// the public key of the first accepted scalar of `randomness_t`, and the
/// shared secret is SHA3-256 of `ss_PQ || ss_T || ct_T || ek_T || label`.
pub proof fn law_mlkem1024p384_encapsulate(ek_pq: Seq<u8>, ek_t: Seq<u8>, randomness_pq: Seq<u8>, randomness_t: Seq<u8>)
    ensures
        spec_encapsulate::<MlKem1024P384>((ek_pq, ek_t), randomness_pq, randomness_t).1
            == spec_mlkem1024_encapsulate(ek_pq, randomness_pq).0 + spec_p384_public_key(
            first_accepted_scalar(randomness_t, 48, p384_order()).unwrap(),
        ),
        spec_encapsulate::<MlKem1024P384>((ek_pq, ek_t), randomness_pq, randomness_t).0 == spec_sha3_256(
            spec_mlkem1024_encapsulate(ek_pq, randomness_pq).1 + spec_p384_diffie_hellman(
                first_accepted_scalar(randomness_t, 48, p384_order()).unwrap(),
                ek_t,
            ) + spec_p384_public_key(first_accepted_scalar(randomness_t, 48, p384_order()).unwrap()) + ek_t
                + seq![0x4du8, 0x4c, 0x4b, 0x45, 0x4d, 0x31, 0x30, 0x32, 0x34, 0x2d, 0x50, 0x33, 0x38, 0x34],
        ),
{
}

/// Decaps of a key whose seed expands, for MlKem1024P384: the ciphertext splits at byte 1568; it fails exactly
/// when the last 97 bytes are not a P384 point; otherwise the secret is
/// SHA3-256 of the ML-KEM-1024 decapsulation (keyed by the first 64 bytes of
/// SHAKE256(seed)), the Diffie-Hellman value with the expanded scalar, ct_T,
/// ek_T and the label.
pub proof fn law_mlkem1024p384_decapsulate(seed: Seq<u8>, ct: Seq<u8>)
    requires
        first_accepted_scalar(spec_shake256(seed, 112).subrange(64, 112), 48, p384_order()) is Some,
    ensures
        spec_decapsulate::<MlKem1024P384>(seed, ct) is Err <==> !p384_point_valid(ct.subrange(1568, ct.len() as int)),
        p384_point_valid(ct.subrange(1568, ct.len() as int)) ==> spec_decapsulate::<MlKem1024P384>(seed, ct)
            == Ok::<Seq<u8>, DecapsulationError>(
            spec_sha3_256(
                spec_mlkem1024_decapsulate(spec_shake256(seed, 112).subrange(0, 64), ct.subrange(0, 1568))
                    + spec_p384_diffie_hellman(
                    first_accepted_scalar(spec_shake256(seed, 112).subrange(64, 112), 48, p384_order()).unwrap(),
                    ct.subrange(1568, ct.len() as int),
                ) + ct.subrange(1568, ct.len() as int) + spec_p384_public_key(
                    first_accepted_scalar(spec_shake256(seed, 112).subrange(64, 112), 48, p384_order()).unwrap(),
                ) + seq![0x4du8, 0x4c, 0x4b, 0x45, 0x4d, 0x31, 0x30, 0x32, 0x34, 0x2d, 0x50, 0x33, 0x38, 0x34],
            ),
        ),
{
}

} // verus!
