//! Hybrid KEMs built from a post-quantum KEM and a nominal group with the
//! C2PRI combiner (draft-irtf-cfrg-hybrid-kems-12, section 5), instantiated
//! as MLKEM768-P256 and MLKEM1024-P384.
//!
//! Naming: `seed` seed, `ss` shared secret, `ct` ciphertext, `ek`
//! encapsulation key (public key for groups), `dk` decapsulation key (secret
//! key for groups); suffix `_pq` post-quantum, `_t` traditional.

use vstd::prelude::*;
use core::marker::PhantomData;
use crate::encoding::{
    concat_bytes, first_accepted_scalar, first_accepted_scalar_among, lemma_chunk_in_bounds,
    lemma_first_accepted_in_range, lemma_first_accepted_stable, mlkem_encapsulation_key_checked,
    p256_order, p256_point_valid, p384_order, p384_point_valid, scalar_chunk, scalar_in_range,
};
use crate::primitives::{
    mlkem1024_decode_encapsulation_key, mlkem1024_decapsulate, mlkem1024_derive_encapsulation_key,
    mlkem1024_encapsulate, mlkem768_decode_encapsulation_key, mlkem768_decapsulate,
    mlkem768_derive_encapsulation_key, mlkem768_encapsulate, p256_diffie_hellman,
    p256_decode_point, p256_public_key, p256_secret_key_accepted, p384_diffie_hellman,
    p384_decode_point, p384_public_key, p384_secret_key_accepted, sha3_256, shake256,
    spec_mlkem1024_decapsulate, spec_mlkem1024_derive_encapsulation_key, spec_mlkem1024_encapsulate,
    spec_mlkem768_decapsulate, spec_mlkem768_derive_encapsulation_key, spec_mlkem768_encapsulate,
    spec_p256_diffie_hellman, spec_p256_public_key, spec_p384_diffie_hellman, spec_p384_public_key,
    spec_sha3_256, spec_shake256,
};

verus! {

#[verifier::external_type_specification]
#[verifier::external_body]
pub struct ExNistP256(p256::NistP256);

#[verifier::external_type_specification]
#[verifier::external_body]
pub struct ExNistP384(p384::NistP384);

#[verifier::external_type_specification]
#[verifier::external_body]
pub struct ExMlKem768(ml_kem::MlKem768);

#[verifier::external_type_specification]
#[verifier::external_body]
pub struct ExMlKem1024(ml_kem::MlKem1024);

#[verifier::external_type_specification]
#[verifier::external_body]
pub struct ExTryFromSliceError(core::array::TryFromSliceError);

// ---------------------------------------------------------------------------
// Errors
// ---------------------------------------------------------------------------

/// Decapsulation failed: the traditional part of the ciphertext is not an
/// encoding of a group element.
#[derive(Debug)]
pub struct DecapsulationError;

impl DecapsulationError {
    /// The text this error displays.
    pub fn to_string(&self) -> (text: String)
        ensures
            text@ == "DecapsulationError"@,
    {
        String::from_str("DecapsulationError")
    }
}

impl From<core::array::TryFromSliceError> for DecapsulationError {
    fn from(_value: core::array::TryFromSliceError) -> (e: Self) {
        DecapsulationError
    }
}

impl vstd::std_specs::convert::FromSpecImpl<core::array::TryFromSliceError> for DecapsulationError {
    open spec fn obeys_from_spec() -> bool {
        true
    }

    open spec fn from_spec(v: core::array::TryFromSliceError) -> Self {
        DecapsulationError
    }
}

/// An encapsulation key was rejected: its post-quantum part fails the key
/// check or its traditional part is not a group element.
#[derive(Debug)]
pub struct InvalidKey;

// ---------------------------------------------------------------------------
// Component schemes
// ---------------------------------------------------------------------------

/// A prime-order group (Group_T) on byte encodings: scalars are big-endian
/// strings of `scalar_size` bytes, elements are encodings of
/// `element_size` bytes.
pub trait NominalGroup: Sized {
    /// Nscalar: bytes in a scalar (and in a shared secret).
    spec fn spec_scalar_size() -> nat;

    /// Nelem: bytes in an encoded element.
    spec fn spec_element_size() -> nat;

    /// The order of the group.
    spec fn spec_order() -> nat;

    /// The encodings of group elements accepted as public keys.
    spec fn spec_element_valid(element: Seq<u8>) -> bool;

    /// Exp(g, sk): the public key of a scalar.
    spec fn spec_exp_generator(scalar: Seq<u8>) -> Seq<u8>;

    /// ElementToSharedSecret(Exp(element, sk)).
    spec fn spec_shared_secret(scalar: Seq<u8>, element: Seq<u8>) -> Seq<u8>;

    /// The sizes are positive and small.
    proof fn lemma_sizes()
        ensures
            0 < Self::spec_scalar_size() <= 64,
            0 < Self::spec_element_size() <= 256,
    ;

    /// A valid element has the element size.
    proof fn lemma_valid_element_size(element: Seq<u8>)
        requires
            Self::spec_element_valid(element),
        ensures
            element.len() == Self::spec_element_size(),
    ;

    fn scalar_size() -> (n: usize)
        ensures
            n == Self::spec_scalar_size(),
            0 < n <= 64,
    ;

    fn element_size() -> (n: usize)
        ensures
            n == Self::spec_element_size(),
            0 < n <= 256,
    ;

    /// Whether a scalar encoding is a valid secret key.
    fn scalar_accepted(scalar: &[u8]) -> (ok: bool)
        requires
            scalar@.len() == Self::spec_scalar_size(),
        ensures
            ok == scalar_in_range(scalar@, Self::spec_order()),
    ;

    /// Exp(g, sk), with the Diffie-Hellman agreement it gives.
    fn exp_generator(scalar: &[u8]) -> (element: Vec<u8>)
        requires
            scalar@.len() == Self::spec_scalar_size(),
            scalar_in_range(scalar@, Self::spec_order()),
        ensures
            element@ == Self::spec_exp_generator(scalar@),
            Self::spec_element_valid(element@),
            forall|o: Seq<u8>|
                o.len() == Self::spec_scalar_size() && scalar_in_range(o, Self::spec_order())
                    ==> #[trigger] Self::spec_shared_secret(o, element@) == Self::spec_shared_secret(
                    scalar@,
                    Self::spec_exp_generator(o),
                ),
    ;

    /// Decodes an encoding of element size as a group element and encodes
    /// it again; `None` when it is not a group element.
    fn decode_element(element: &[u8]) -> (decoded: Option<Vec<u8>>)
        requires
            element@.len() == Self::spec_element_size(),
        ensures
            decoded is Some <==> Self::spec_element_valid(element@),
            decoded matches Some(e) ==> e@ == element@,
    ;

    /// ElementToSharedSecret(Exp(element, sk)).
    fn shared_secret(scalar: &[u8], element: &[u8]) -> (ss: Vec<u8>)
        requires
            scalar@.len() == Self::spec_scalar_size(),
            scalar_in_range(scalar@, Self::spec_order()),
            Self::spec_element_valid(element@),
        ensures
            ss@ == Self::spec_shared_secret(scalar@, element@),
            ss@.len() == Self::spec_scalar_size(),
    ;
}

/// RandomScalar(seed) of draft-irtf-cfrg-concrete-hybrid-kems, section 3.1.1.
pub open spec fn spec_random_scalar<G: NominalGroup>(seed: Seq<u8>) -> Option<Seq<u8>> {
    first_accepted_scalar(seed, G::spec_scalar_size(), G::spec_order())
}

/// Groups that derive a secret scalar from a seed of `seed_size` bytes.
pub trait RandomScalar: NominalGroup {
    /// Nseed: bytes of seed consumed by RandomScalar.
    spec fn spec_seed_size() -> nat;

    fn seed_size() -> (n: usize)
        ensures
            n == Self::spec_seed_size(),
            n <= 1024,
    ;

    /// RandomScalar(seed): the first chunk of `scalar_size` bytes of the
    /// seed that is a valid scalar; `None` when every chunk is rejected
    /// (which happens with negligible probability).
    fn random_scalar(seed: &[u8]) -> (sk: Option<Vec<u8>>)
        ensures
            match sk {
                Some(v) => spec_random_scalar::<Self>(seed@) == Some(v@),
                None => spec_random_scalar::<Self>(seed@) is None,
            },
    {
        let n = Self::scalar_size();
        let count = seed.len() / n;
        let ghost order = Self::spec_order();
        let mut i: usize = 0;
        while i < count
            invariant
                n == Self::spec_scalar_size(),
                0 < n <= 64,
                order == Self::spec_order(),
                count == seed@.len() / (n as nat),
                i <= count,
                first_accepted_scalar_among(seed@, n as nat, order, i as nat) is None,
            decreases count - i,
        {
            proof {
                lemma_chunk_in_bounds(seed@.len(), n as nat, i as nat);
                assert(seed@.len() == seed.len());
                assert(i * n + n <= seed.len());
            }
            let start = i * n;
            let (_, rest) = seed.split_at(start);
            let (chunk, _) = rest.split_at(n);
            assert(chunk@ =~= scalar_chunk(seed@, n as nat, i as int));
            if Self::scalar_accepted(chunk) {
                let sk = vstd::slice::slice_to_vec(chunk);
                proof {
                    lemma_first_accepted_stable(seed@, n as nat, order, (i + 1) as nat, count as nat);
                }
                return Some(sk);
            }
            i = i + 1;
        }
        None
    }
}

/// A post-quantum KEM (KEM_PQ) on byte encodings, with keys derived from a
/// seed and decapsulation keys held as that seed.
pub trait PostQuantumKem: Sized {
    /// Nseed: bytes in a key-generation seed.
    spec fn spec_seed_size() -> nat;

    /// Nek: bytes in an encapsulation key.
    spec fn spec_encapsulation_key_size() -> nat;

    /// Nct: bytes in a ciphertext.
    spec fn spec_ciphertext_size() -> nat;

    /// Nss: bytes in a shared key.
    spec fn spec_shared_key_size() -> nat;

    /// The encapsulation keys accepted by the KEM.
    spec fn spec_encapsulation_key_checked(ek: Seq<u8>) -> bool;

    /// DeriveKeyPair(seed).ek.
    spec fn spec_derive_encapsulation_key(seed: Seq<u8>) -> Seq<u8>;

    /// Decaps(DeriveKeyPair(seed).dk, ct).
    spec fn spec_decapsulate(seed: Seq<u8>, ct: Seq<u8>) -> Seq<u8>;

    /// An accepted encapsulation key has the encapsulation key size.
    proof fn lemma_checked_key_size(ek: Seq<u8>)
        requires
            Self::spec_encapsulation_key_checked(ek),
        ensures
            ek.len() == Self::spec_encapsulation_key_size(),
    ;

    fn seed_size() -> (n: usize)
        ensures
            n == Self::spec_seed_size(),
            n <= 1024,
    ;

    fn encapsulation_key_size() -> (n: usize)
        ensures
            n == Self::spec_encapsulation_key_size(),
            n <= 4096,
    ;

    fn ciphertext_size() -> (n: usize)
        ensures
            n == Self::spec_ciphertext_size(),
            n <= 4096,
    ;

    /// DeriveKeyPair(seed).ek; the key it gives is accepted.
    fn derive_encapsulation_key(seed: &[u8]) -> (ek: Vec<u8>)
        requires
            seed@.len() == Self::spec_seed_size(),
        ensures
            ek@ == Self::spec_derive_encapsulation_key(seed@),
            Self::spec_encapsulation_key_checked(ek@),
    ;

    /// Decodes an encapsulation key of the right size and encodes it
    /// again; `None` when the key is not accepted.
    fn decode_encapsulation_key(ek: &[u8]) -> (key: Option<Vec<u8>>)
        requires
            ek@.len() == Self::spec_encapsulation_key_size(),
        ensures
            key is Some <==> Self::spec_encapsulation_key_checked(ek@),
            key matches Some(key) ==> key@ == ek@,
    ;

    /// Decaps(DeriveKeyPair(seed).dk, ct).
    fn decapsulate(seed: &[u8], ct: &[u8]) -> (ss: Vec<u8>)
        requires
            seed@.len() == Self::spec_seed_size(),
            ct@.len() == Self::spec_ciphertext_size(),
        ensures
            ss@ == Self::spec_decapsulate(seed@, ct@),
            ss@.len() == Self::spec_shared_key_size(),
    ;
}

/// Post-quantum KEMs whose encapsulation takes its randomness explicitly.
pub trait EncapsulateDeterministic: PostQuantumKem {
    /// Bytes of randomness consumed by one encapsulation.
    spec fn spec_randomness_size() -> nat;

    /// Encaps(ek) with the given randomness: (ciphertext, shared key).
    spec fn spec_encapsulate(ek: Seq<u8>, randomness: Seq<u8>) -> (Seq<u8>, Seq<u8>);

    fn randomness_size() -> (n: usize)
        ensures
            n == Self::spec_randomness_size(),
            n <= 1024,
    ;

    /// Encaps(ek) with the given randomness: (ciphertext, shared key).
    fn encapsulate_deterministic(ek: &[u8], randomness: &[u8]) -> (res: (Vec<u8>, Vec<u8>))
        requires
            Self::spec_encapsulation_key_checked(ek@),
            randomness@.len() == Self::spec_randomness_size(),
        ensures
            (res.0@, res.1@) == Self::spec_encapsulate(ek@, randomness@),
            res.0@.len() == Self::spec_ciphertext_size(),
            res.1@.len() == Self::spec_shared_key_size(),
    ;
}

// ---------------------------------------------------------------------------
// Component instances
// ---------------------------------------------------------------------------

impl NominalGroup for p256::NistP256 {
    open spec fn spec_scalar_size() -> nat {
        32
    }

    open spec fn spec_element_size() -> nat {
        65
    }

    open spec fn spec_order() -> nat {
        p256_order()
    }

    open spec fn spec_element_valid(element: Seq<u8>) -> bool {
        p256_point_valid(element)
    }

    open spec fn spec_exp_generator(scalar: Seq<u8>) -> Seq<u8> {
        spec_p256_public_key(scalar)
    }

    open spec fn spec_shared_secret(scalar: Seq<u8>, element: Seq<u8>) -> Seq<u8> {
        spec_p256_diffie_hellman(scalar, element)
    }

    proof fn lemma_sizes() {
    }

    proof fn lemma_valid_element_size(element: Seq<u8>) {
    }

    fn scalar_size() -> (n: usize) {
        32
    }

    fn element_size() -> (n: usize) {
        65
    }

    fn scalar_accepted(scalar: &[u8]) -> (ok: bool) {
        p256_secret_key_accepted(scalar)
    }

    fn exp_generator(scalar: &[u8]) -> (element: Vec<u8>)
        ensures
            element@ == spec_p256_public_key(scalar@),
    {
        p256_public_key(scalar)
    }

    fn decode_element(element: &[u8]) -> (decoded: Option<Vec<u8>>) {
        p256_decode_point(element)
    }

    fn shared_secret(scalar: &[u8], element: &[u8]) -> (ss: Vec<u8>)
        ensures
            ss@ == spec_p256_diffie_hellman(scalar@, element@),
    {
        p256_diffie_hellman(scalar, element)
    }
}

/// P-256 draws its secret scalar from 128 bytes of seed, four candidates.
impl RandomScalar for p256::NistP256 {
    open spec fn spec_seed_size() -> nat {
        128
    }

    fn seed_size() -> (n: usize) {
        128
    }
}

impl NominalGroup for p384::NistP384 {
    open spec fn spec_scalar_size() -> nat {
        48
    }

    open spec fn spec_element_size() -> nat {
        97
    }

    open spec fn spec_order() -> nat {
        p384_order()
    }

    open spec fn spec_element_valid(element: Seq<u8>) -> bool {
        p384_point_valid(element)
    }

    open spec fn spec_exp_generator(scalar: Seq<u8>) -> Seq<u8> {
        spec_p384_public_key(scalar)
    }

    open spec fn spec_shared_secret(scalar: Seq<u8>, element: Seq<u8>) -> Seq<u8> {
        spec_p384_diffie_hellman(scalar, element)
    }

    proof fn lemma_sizes() {
    }

    proof fn lemma_valid_element_size(element: Seq<u8>) {
    }

    fn scalar_size() -> (n: usize) {
        48
    }

    fn element_size() -> (n: usize) {
        97
    }

    fn scalar_accepted(scalar: &[u8]) -> (ok: bool) {
        p384_secret_key_accepted(scalar)
    }

    fn exp_generator(scalar: &[u8]) -> (element: Vec<u8>)
        ensures
            element@ == spec_p384_public_key(scalar@),
    {
        p384_public_key(scalar)
    }

    fn decode_element(element: &[u8]) -> (decoded: Option<Vec<u8>>) {
        p384_decode_point(element)
    }

    fn shared_secret(scalar: &[u8], element: &[u8]) -> (ss: Vec<u8>)
        ensures
            ss@ == spec_p384_diffie_hellman(scalar@, element@),
    {
        p384_diffie_hellman(scalar, element)
    }
}

/// P-384 draws its secret scalar from 48 bytes of seed, one candidate.
impl RandomScalar for p384::NistP384 {
    open spec fn spec_seed_size() -> nat {
        48
    }

    fn seed_size() -> (n: usize) {
        48
    }
}

impl PostQuantumKem for ml_kem::MlKem768 {
    open spec fn spec_seed_size() -> nat {
        64
    }

    open spec fn spec_encapsulation_key_size() -> nat {
        1184
    }

    open spec fn spec_ciphertext_size() -> nat {
        1088
    }

    open spec fn spec_shared_key_size() -> nat {
        32
    }

    open spec fn spec_encapsulation_key_checked(ek: Seq<u8>) -> bool {
        mlkem_encapsulation_key_checked(ek, 3)
    }

    open spec fn spec_derive_encapsulation_key(seed: Seq<u8>) -> Seq<u8> {
        spec_mlkem768_derive_encapsulation_key(seed)
    }

    open spec fn spec_decapsulate(seed: Seq<u8>, ct: Seq<u8>) -> Seq<u8> {
        spec_mlkem768_decapsulate(seed, ct)
    }

    proof fn lemma_checked_key_size(ek: Seq<u8>) {
    }

    fn seed_size() -> (n: usize) {
        64
    }

    fn encapsulation_key_size() -> (n: usize) {
        1184
    }

    fn ciphertext_size() -> (n: usize) {
        1088
    }

    fn derive_encapsulation_key(seed: &[u8]) -> (ek: Vec<u8>)
        ensures
            ek@ == spec_mlkem768_derive_encapsulation_key(seed@),
    {
        mlkem768_derive_encapsulation_key(seed)
    }

    fn decode_encapsulation_key(ek: &[u8]) -> (key: Option<Vec<u8>>) {
        mlkem768_decode_encapsulation_key(ek)
    }

    fn decapsulate(seed: &[u8], ct: &[u8]) -> (ss: Vec<u8>)
        ensures
            ss@ == spec_mlkem768_decapsulate(seed@, ct@),
    {
        mlkem768_decapsulate(seed, ct)
    }
}

impl EncapsulateDeterministic for ml_kem::MlKem768 {
    open spec fn spec_randomness_size() -> nat {
        32
    }

    open spec fn spec_encapsulate(ek: Seq<u8>, randomness: Seq<u8>) -> (Seq<u8>, Seq<u8>) {
        spec_mlkem768_encapsulate(ek, randomness)
    }

    fn randomness_size() -> (n: usize) {
        32
    }

    fn encapsulate_deterministic(ek: &[u8], randomness: &[u8]) -> (res: (Vec<u8>, Vec<u8>))
        ensures
            (res.0@, res.1@) == spec_mlkem768_encapsulate(ek@, randomness@),
    {
        mlkem768_encapsulate(ek, randomness)
    }
}

impl PostQuantumKem for ml_kem::MlKem1024 {
    open spec fn spec_seed_size() -> nat {
        64
    }

    open spec fn spec_encapsulation_key_size() -> nat {
        1568
    }

    open spec fn spec_ciphertext_size() -> nat {
        1568
    }

    open spec fn spec_shared_key_size() -> nat {
        32
    }

    open spec fn spec_encapsulation_key_checked(ek: Seq<u8>) -> bool {
        mlkem_encapsulation_key_checked(ek, 4)
    }

    open spec fn spec_derive_encapsulation_key(seed: Seq<u8>) -> Seq<u8> {
        spec_mlkem1024_derive_encapsulation_key(seed)
    }

    open spec fn spec_decapsulate(seed: Seq<u8>, ct: Seq<u8>) -> Seq<u8> {
        spec_mlkem1024_decapsulate(seed, ct)
    }

    proof fn lemma_checked_key_size(ek: Seq<u8>) {
    }

    fn seed_size() -> (n: usize) {
        64
    }

    fn encapsulation_key_size() -> (n: usize) {
        1568
    }

    fn ciphertext_size() -> (n: usize) {
        1568
    }

    fn derive_encapsulation_key(seed: &[u8]) -> (ek: Vec<u8>)
        ensures
            ek@ == spec_mlkem1024_derive_encapsulation_key(seed@),
    {
        mlkem1024_derive_encapsulation_key(seed)
    }

    fn decode_encapsulation_key(ek: &[u8]) -> (key: Option<Vec<u8>>) {
        mlkem1024_decode_encapsulation_key(ek)
    }

    fn decapsulate(seed: &[u8], ct: &[u8]) -> (ss: Vec<u8>)
        ensures
            ss@ == spec_mlkem1024_decapsulate(seed@, ct@),
    {
        mlkem1024_decapsulate(seed, ct)
    }
}

impl EncapsulateDeterministic for ml_kem::MlKem1024 {
    open spec fn spec_randomness_size() -> nat {
        32
    }

    open spec fn spec_encapsulate(ek: Seq<u8>, randomness: Seq<u8>) -> (Seq<u8>, Seq<u8>) {
        spec_mlkem1024_encapsulate(ek, randomness)
    }

    fn randomness_size() -> (n: usize) {
        32
    }

    fn encapsulate_deterministic(ek: &[u8], randomness: &[u8]) -> (res: (Vec<u8>, Vec<u8>))
        ensures
            (res.0@, res.1@) == spec_mlkem1024_encapsulate(ek@, randomness@),
    {
        mlkem1024_encapsulate(ek, randomness)
    }
}

// ---------------------------------------------------------------------------
// Hybrid parameter sets
// ---------------------------------------------------------------------------

/// A hybrid KEM parameter set: the two component schemes, the PRG that
/// expands a seed, the KDF of the combiner, and the label.
pub trait HybridKemParameter: Sized {
    type GroupT: RandomScalar;

    type KemPQ: EncapsulateDeterministic;

    /// The label bound into every shared secret.
    spec fn spec_label() -> Seq<u8>;

    /// The first `len` bytes of PRG(seed).
    spec fn spec_prg(seed: Seq<u8>, len: nat) -> Seq<u8>;

    /// KDF(input).
    spec fn spec_kdf(input: Seq<u8>) -> Seq<u8>;

    /// Bytes in a decapsulation key (the seed).
    spec fn spec_decapsulation_key_size() -> nat;

    /// Bytes in a hybrid shared secret (the KDF output).
    spec fn spec_shared_secret_size() -> nat;

    fn label() -> (label: Vec<u8>)
        ensures
            label@ == Self::spec_label(),
            label@.len() <= 64,
    ;

    fn prg(seed: &[u8], len: usize) -> (out: Vec<u8>)
        ensures
            out@ == Self::spec_prg(seed@, len as nat),
            out@.len() == len,
    ;

    fn kdf(input: &[u8]) -> (out: Vec<u8>)
        ensures
            out@ == Self::spec_kdf(input@),
            out@.len() == Self::spec_shared_secret_size(),
    ;

    fn decapsulation_key_size() -> (n: usize)
        ensures
            n == Self::spec_decapsulation_key_size(),
    ;
}

/// MLKEM768-P256.
#[derive(Copy, Clone, Debug, Default, Eq, PartialEq, PartialOrd, Ord)]
pub struct MlKem768P256 {}

/// MLKEM1024-P384.
#[derive(Copy, Clone, Debug, Default, Eq, PartialEq, PartialOrd, Ord)]
pub struct MlKem1024P384 {}

pub type MlKem768P256DecapsulationKey = HybridKemDecapsulationKey<MlKem768P256>;

pub type MlKem768P256EncapsulationKey = HybridKemEncapsulationKey<MlKem768P256>;

pub type MlKem1024P384DecapsulationKey = HybridKemDecapsulationKey<MlKem1024P384>;

pub type MlKem1024P384EncapsulationKey = HybridKemEncapsulationKey<MlKem1024P384>;

/// The bytes of the ASCII string `MLKEM768-P256`.
pub open spec fn mlkem768_p256_label() -> Seq<u8> {
    seq![0x4du8, 0x4c, 0x4b, 0x45, 0x4d, 0x37, 0x36, 0x38, 0x2d, 0x50, 0x32, 0x35, 0x36]
}

/// The bytes of the ASCII string `MLKEM1024-P384`.
pub open spec fn mlkem1024_p384_label() -> Seq<u8> {
    seq![0x4du8, 0x4c, 0x4b, 0x45, 0x4d, 0x31, 0x30, 0x32, 0x34, 0x2d, 0x50, 0x33, 0x38, 0x34]
}

impl HybridKemParameter for MlKem768P256 {
    type GroupT = p256::NistP256;

    type KemPQ = ml_kem::MlKem768;

    open spec fn spec_label() -> Seq<u8> {
        mlkem768_p256_label()
    }

    open spec fn spec_prg(seed: Seq<u8>, len: nat) -> Seq<u8> {
        spec_shake256(seed, len)
    }

    open spec fn spec_kdf(input: Seq<u8>) -> Seq<u8> {
        spec_sha3_256(input)
    }

    open spec fn spec_decapsulation_key_size() -> nat {
        32
    }

    open spec fn spec_shared_secret_size() -> nat {
        32
    }

    fn label() -> (label: Vec<u8>) {
        let label: Vec<u8> = vec![0x4du8, 0x4c, 0x4b, 0x45, 0x4d, 0x37, 0x36, 0x38, 0x2d, 0x50, 0x32, 0x35, 0x36];
        assert(label@ =~= mlkem768_p256_label());
        label
    }

    fn prg(seed: &[u8], len: usize) -> (out: Vec<u8>)
        ensures
            out@ == spec_shake256(seed@, len as nat),
    {
        shake256(seed, len)
    }

    fn kdf(input: &[u8]) -> (out: Vec<u8>)
        ensures
            out@ == spec_sha3_256(input@),
    {
        sha3_256(input)
    }

    fn decapsulation_key_size() -> (n: usize) {
        32
    }
}

impl HybridKemParameter for MlKem1024P384 {
    type GroupT = p384::NistP384;

    type KemPQ = ml_kem::MlKem1024;

    open spec fn spec_label() -> Seq<u8> {
        mlkem1024_p384_label()
    }

    open spec fn spec_prg(seed: Seq<u8>, len: nat) -> Seq<u8> {
        spec_shake256(seed, len)
    }

    open spec fn spec_kdf(input: Seq<u8>) -> Seq<u8> {
        spec_sha3_256(input)
    }

    open spec fn spec_decapsulation_key_size() -> nat {
        32
    }

    open spec fn spec_shared_secret_size() -> nat {
        32
    }

    fn label() -> (label: Vec<u8>) {
        let label: Vec<u8> = vec![0x4du8, 0x4c, 0x4b, 0x45, 0x4d, 0x31, 0x30, 0x32, 0x34, 0x2d, 0x50, 0x33, 0x38, 0x34];
        assert(label@ =~= mlkem1024_p384_label());
        label
    }

    fn prg(seed: &[u8], len: usize) -> (out: Vec<u8>)
        ensures
            out@ == spec_shake256(seed@, len as nat),
    {
        shake256(seed, len)
    }

    fn kdf(input: &[u8]) -> (out: Vec<u8>)
        ensures
            out@ == spec_sha3_256(input@),
    {
        sha3_256(input)
    }

    fn decapsulation_key_size() -> (n: usize) {
        32
    }
}

// ---------------------------------------------------------------------------
// The hybrid construction, as mathematics
// ---------------------------------------------------------------------------

/// Bytes in a hybrid encapsulation key: `ek_PQ || ek_T`.
pub open spec fn spec_encapsulation_key_size<H: HybridKemParameter>() -> nat {
    <H::KemPQ as PostQuantumKem>::spec_encapsulation_key_size()
        + <H::GroupT as NominalGroup>::spec_element_size()
}

/// Bytes in a hybrid ciphertext: `ct_PQ || ct_T`.
pub open spec fn spec_ciphertext_size<H: HybridKemParameter>() -> nat {
    <H::KemPQ as PostQuantumKem>::spec_ciphertext_size()
        + <H::GroupT as NominalGroup>::spec_element_size()
}

/// An encapsulation key `(ek_PQ, ek_T)` whose parts the component schemes
/// accept.
pub open spec fn spec_encapsulation_key_valid<H: HybridKemParameter>(ek: (Seq<u8>, Seq<u8>)) -> bool {
    &&& <H::KemPQ as PostQuantumKem>::spec_encapsulation_key_checked(ek.0)
    &&& <H::GroupT as NominalGroup>::spec_element_valid(ek.1)
}

/// split(KEM_PQ.Nek, Group_T.Nelem, ek).
pub open spec fn spec_split_encapsulation_key<H: HybridKemParameter>(key: Seq<u8>) -> (Seq<u8>, Seq<u8>) {
    let n = <H::KemPQ as PostQuantumKem>::spec_encapsulation_key_size() as int;
    (key.subrange(0, n), key.subrange(n, key.len() as int))
}

/// expandDecapsKeyG(seed) = (ek_PQ, ek_T, dk_PQ, dk_T), where dk_PQ is the
/// post-quantum key-generation seed; `None` when RandomScalar fails.
pub open spec fn spec_expand_decaps_key<H: HybridKemParameter>(seed: Seq<u8>) -> Option<
    (Seq<u8>, Seq<u8>, Seq<u8>, Seq<u8>),
> {
    let n_pq = <H::KemPQ as PostQuantumKem>::spec_seed_size();
    let n_t = <H::GroupT as RandomScalar>::spec_seed_size();
    let seed_full = H::spec_prg(seed, n_pq + n_t);
    let seed_pq = seed_full.subrange(0, n_pq as int);
    let seed_t = seed_full.subrange(n_pq as int, (n_pq + n_t) as int);
    match spec_random_scalar::<H::GroupT>(seed_t) {
        Some(dk_t) => Some(
            (
                <H::KemPQ as PostQuantumKem>::spec_derive_encapsulation_key(seed_pq),
                <H::GroupT as NominalGroup>::spec_exp_generator(dk_t),
                seed_pq,
                dk_t,
            ),
        ),
        None => None,
    }
}

/// C2PRICombiner(ss_PQ, ss_T, ct_T, ek_T, label) =
/// KDF(concat(ss_PQ, ss_T, ct_T, ek_T, label)).
pub open spec fn spec_c2pri_combiner<H: HybridKemParameter>(
    ss_pq: Seq<u8>,
    ss_t: Seq<u8>,
    ct_t: Seq<u8>,
    ek_t: Seq<u8>,
    label: Seq<u8>,
) -> Seq<u8> {
    H::spec_kdf(ss_pq + ss_t + ct_t + ek_t + label)
}

/// prepareEncapsG(ek_PQ, ek_T) = (ss_PQ, ss_T, ct_PQ, ct_T) with the given
/// randomness.
pub open spec fn spec_prepare_encaps<H: HybridKemParameter>(
    ek_pq: Seq<u8>,
    ek_t: Seq<u8>,
    randomness_pq: Seq<u8>,
    randomness_t: Seq<u8>,
) -> (Seq<u8>, Seq<u8>, Seq<u8>, Seq<u8>) {
    let (ct_pq, ss_pq) = <H::KemPQ as EncapsulateDeterministic>::spec_encapsulate(ek_pq, randomness_pq);
    let sk_e = spec_random_scalar::<H::GroupT>(randomness_t).unwrap();
    let ct_t = <H::GroupT as NominalGroup>::spec_exp_generator(sk_e);
    let ss_t = <H::GroupT as NominalGroup>::spec_shared_secret(sk_e, ek_t);
    (ss_pq, ss_t, ct_pq, ct_t)
}

/// Encaps(ek) = (ss_H, ct_H) with the given randomness.
pub open spec fn spec_encapsulate<H: HybridKemParameter>(
    ek: (Seq<u8>, Seq<u8>),
    randomness_pq: Seq<u8>,
    randomness_t: Seq<u8>,
) -> (Seq<u8>, Seq<u8>) {
    let (ss_pq, ss_t, ct_pq, ct_t) = spec_prepare_encaps::<H>(ek.0, ek.1, randomness_pq, randomness_t);
    (spec_c2pri_combiner::<H>(ss_pq, ss_t, ct_t, ek.1, H::spec_label()), ct_pq + ct_t)
}

/// prepareDecapsG(ct_PQ, ct_T, dk_PQ, dk_T) = (ss_PQ, ss_T).
pub open spec fn spec_prepare_decaps<H: HybridKemParameter>(
    ct_pq: Seq<u8>,
    ct_t: Seq<u8>,
    dk_pq: Seq<u8>,
    dk_t: Seq<u8>,
) -> (Seq<u8>, Seq<u8>) {
    (
        <H::KemPQ as PostQuantumKem>::spec_decapsulate(dk_pq, ct_pq),
        <H::GroupT as NominalGroup>::spec_shared_secret(dk_t, ct_t),
    )
}

/// Decaps(dk, ct): an error when ct_T is not a group element, otherwise
/// the combined shared secret.
pub open spec fn spec_decapsulate<H: HybridKemParameter>(seed: Seq<u8>, ct: Seq<u8>) -> Result<
    Seq<u8>,
    DecapsulationError,
> {
    let n = <H::KemPQ as PostQuantumKem>::spec_ciphertext_size() as int;
    let ct_pq = ct.subrange(0, n);
    let ct_t = ct.subrange(n, ct.len() as int);
    if !<H::GroupT as NominalGroup>::spec_element_valid(ct_t) {
        Err(DecapsulationError)
    } else {
        let (ek_pq, ek_t, dk_pq, dk_t) = spec_expand_decaps_key::<H>(seed).unwrap();
        let (ss_pq, ss_t) = spec_prepare_decaps::<H>(ct_pq, ct_t, dk_pq, dk_t);
        Ok(spec_c2pri_combiner::<H>(ss_pq, ss_t, ct_t, ek_t, H::spec_label()))
    }
}

/// `seed` is a decapsulation key whose encapsulation key is `ek`.
pub open spec fn spec_decapsulation_key_of<H: HybridKemParameter>(
    seed: Seq<u8>,
    ek: (Seq<u8>, Seq<u8>),
) -> bool {
    &&& spec_expand_decaps_key::<H>(seed) is Some
    &&& spec_expand_decaps_key::<H>(seed).unwrap().0 == ek.0
    &&& spec_expand_decaps_key::<H>(seed).unwrap().1 == ek.1
}

/// The post-quantum KEM, keyed by `seed`, decapsulates its own encapsulation
/// under `randomness_pq` to the key it encapsulated. (ML-KEM fails this with
/// negligible probability, so it is a hypothesis, not a fact.)
pub open spec fn spec_pq_decapsulates_correctly<H: HybridKemParameter>(
    seed: Seq<u8>,
    randomness_pq: Seq<u8>,
) -> bool {
    let k = spec_expand_decaps_key::<H>(seed).unwrap();
    let (ct_pq, ss_pq) = <H::KemPQ as EncapsulateDeterministic>::spec_encapsulate(k.0, randomness_pq);
    <H::KemPQ as PostQuantumKem>::spec_decapsulate(k.2, ct_pq) == ss_pq
}

/// RandomScalar only ever gives valid scalars.
pub proof fn lemma_random_scalar_valid<G: NominalGroup>(seed: Seq<u8>)
    ensures
        spec_random_scalar::<G>(seed) matches Some(sk) ==> sk.len() == G::spec_scalar_size()
            && scalar_in_range(sk, G::spec_order()),
{
    G::lemma_sizes();
    lemma_first_accepted_in_range(seed, G::spec_scalar_size(), G::spec_order(), seed.len() / G::spec_scalar_size());
}

/// The traditional decapsulation key of an expanded seed is a valid scalar
/// whose public key is the traditional encapsulation key.
pub proof fn lemma_expand_decaps_key_valid<H: HybridKemParameter>(seed: Seq<u8>)
    ensures
        spec_expand_decaps_key::<H>(seed) matches Some(k) ==> {
            &&& k.3.len() == <H::GroupT as NominalGroup>::spec_scalar_size()
            &&& scalar_in_range(k.3, <H::GroupT as NominalGroup>::spec_order())
            &&& k.1 == <H::GroupT as NominalGroup>::spec_exp_generator(k.3)
        },
{
    let n_pq = <H::KemPQ as PostQuantumKem>::spec_seed_size();
    let n_t = <H::GroupT as RandomScalar>::spec_seed_size();
    let seed_full = H::spec_prg(seed, n_pq + n_t);
    lemma_random_scalar_valid::<H::GroupT>(seed_full.subrange(n_pq as int, (n_pq + n_t) as int));
}

/// Encoding a valid encapsulation key as `ek_PQ || ek_T` and splitting the
/// bytes again gives the key back, and the decoder accepts it.
pub proof fn lemma_encapsulation_key_encode_decode<H: HybridKemParameter>(ek: (Seq<u8>, Seq<u8>))
    requires
        spec_encapsulation_key_valid::<H>(ek),
    ensures
        (ek.0 + ek.1).len() == spec_encapsulation_key_size::<H>(),
        spec_split_encapsulation_key::<H>(ek.0 + ek.1) == ek,
        spec_encapsulation_key_valid::<H>(spec_split_encapsulation_key::<H>(ek.0 + ek.1)),
{
    <H::KemPQ as PostQuantumKem>::lemma_checked_key_size(ek.0);
    <H::GroupT as NominalGroup>::lemma_valid_element_size(ek.1);
    let bytes = ek.0 + ek.1;
    let n = <H::KemPQ as PostQuantumKem>::spec_encapsulation_key_size() as int;
    assert(bytes.subrange(0, n) =~= ek.0);
    assert(bytes.subrange(n, bytes.len() as int) =~= ek.1);
}

/// Splitting encapsulation key bytes and encoding the parts again gives the
/// bytes back.
pub proof fn lemma_encapsulation_key_decode_encode<H: HybridKemParameter>(key: Seq<u8>)
    requires
        key.len() == spec_encapsulation_key_size::<H>(),
    ensures
        spec_split_encapsulation_key::<H>(key).0 + spec_split_encapsulation_key::<H>(key).1 == key,
{
    let parts = spec_split_encapsulation_key::<H>(key);
    assert(parts.0 + parts.1 =~= key);
}

// ---------------------------------------------------------------------------
// The hybrid construction, executable
// ---------------------------------------------------------------------------

/// Bytes in a hybrid encapsulation key.
pub fn encapsulation_key_size<H: HybridKemParameter>() -> (n: usize)
    ensures
        n == spec_encapsulation_key_size::<H>(),
{
    <H::KemPQ as PostQuantumKem>::encapsulation_key_size() + <H::GroupT as NominalGroup>::element_size()
}

/// Bytes in a hybrid ciphertext.
pub fn ciphertext_size<H: HybridKemParameter>() -> (n: usize)
    ensures
        n == spec_ciphertext_size::<H>(),
{
    <H::KemPQ as PostQuantumKem>::ciphertext_size() + <H::GroupT as NominalGroup>::element_size()
}

/// Whether expandDecapsKeyG(seed) succeeds: RandomScalar accepts a chunk
/// of the traditional part of PRG(seed). It fails with cryptographically
/// negligible probability.
pub fn seed_expands<H: HybridKemParameter>(seed: &[u8]) -> (expands: bool)
    ensures
        expands == spec_expand_decaps_key::<H>(seed@) is Some,
{
    let n_pq = <H::KemPQ as PostQuantumKem>::seed_size();
    let n_t = <H::GroupT as RandomScalar>::seed_size();
    let seed_full = H::prg(seed, n_pq + n_t);
    let (_seed_pq, seed_t) = seed_full.as_slice().split_at(n_pq);
    assert(seed_t@ =~= seed_full@.subrange(n_pq as int, (n_pq + n_t) as int));
    <H::GroupT as RandomScalar>::random_scalar(seed_t).is_some()
}

/// expandDecapsKeyG(seed) = (ek_PQ, ek_T, dk_PQ, dk_T). The seed must
/// expand (`seed_expands` tests it).
pub fn expand_decaps_key_g<H: HybridKemParameter>(seed: &[u8]) -> (keys: (Vec<u8>, Vec<u8>, Vec<u8>, Vec<u8>))
    requires
        spec_expand_decaps_key::<H>(seed@) is Some,
    ensures
        spec_expand_decaps_key::<H>(seed@) == Some((keys.0@, keys.1@, keys.2@, keys.3@)),
        spec_encapsulation_key_valid::<H>((keys.0@, keys.1@)),
        keys.2@.len() == <H::KemPQ as PostQuantumKem>::spec_seed_size(),
        keys.2@ == H::spec_prg(
            seed@,
            <H::KemPQ as PostQuantumKem>::spec_seed_size() + <H::GroupT as RandomScalar>::spec_seed_size(),
        ).subrange(0, <H::KemPQ as PostQuantumKem>::spec_seed_size() as int),
        Some(keys.3@) == first_accepted_scalar(
            H::spec_prg(
                seed@,
                <H::KemPQ as PostQuantumKem>::spec_seed_size() + <H::GroupT as RandomScalar>::spec_seed_size(),
            ).subrange(
                <H::KemPQ as PostQuantumKem>::spec_seed_size() as int,
                (<H::KemPQ as PostQuantumKem>::spec_seed_size() + <H::GroupT as RandomScalar>::spec_seed_size()) as int,
            ),
            <H::GroupT as NominalGroup>::spec_scalar_size(),
            <H::GroupT as NominalGroup>::spec_order(),
        ),
        keys.0@ == <H::KemPQ as PostQuantumKem>::spec_derive_encapsulation_key(keys.2@),
        keys.1@ == <H::GroupT as NominalGroup>::spec_exp_generator(keys.3@),
{
    // seed_full = PRG(seed)
    let n_pq = <H::KemPQ as PostQuantumKem>::seed_size();
    let n_t = <H::GroupT as RandomScalar>::seed_size();
    let seed_full = H::prg(seed, n_pq + n_t);
    // (seed_PQ, seed_T) = split(KEM_PQ.Nseed, Group_T.Nseed, seed_full)
    let (seed_pq, seed_t) = seed_full.as_slice().split_at(n_pq);
    assert(seed_t@ =~= seed_full@.subrange(n_pq as int, (n_pq + n_t) as int));
    // (dk_PQ, ek_PQ) = KEM_PQ.DeriveKeyPair(seed_PQ)
    let encapsulation_key_pq = <H::KemPQ as PostQuantumKem>::derive_encapsulation_key(seed_pq);
    // dk_T = Group_T.RandomScalar(seed_T)
    let decapsulation_key_t = <H::GroupT as RandomScalar>::random_scalar(seed_t).unwrap();
    proof {
        lemma_random_scalar_valid::<H::GroupT>(seed_t@);
    }
    // ek_T = Group_T.Exp(Group_T.g, dk_T)
    let encapsulation_key_t = <H::GroupT as NominalGroup>::exp_generator(&decapsulation_key_t);
    let decapsulation_key_pq = vstd::slice::slice_to_vec(seed_pq);
    // return (ek_PQ, ek_T, dk_PQ, dk_T)
    (encapsulation_key_pq, encapsulation_key_t, decapsulation_key_pq, decapsulation_key_t)
}

/// prepareEncapsG(ek_PQ, ek_T) with explicit randomness; also reports that
/// ct_T is a group element and that Diffie-Hellman with it agrees.
pub fn prepare_encaps_g<H: HybridKemParameter>(
    encapsulation_key_pq: &[u8],
    encapsulation_key_t: &[u8],
    randomness_pq: &[u8],
    randomness_t: &[u8],
) -> (res: (Vec<u8>, Vec<u8>, Vec<u8>, Vec<u8>))
    requires
        spec_encapsulation_key_valid::<H>((encapsulation_key_pq@, encapsulation_key_t@)),
        randomness_pq@.len() == <H::KemPQ as EncapsulateDeterministic>::spec_randomness_size(),
        spec_random_scalar::<H::GroupT>(randomness_t@) is Some,
    ensures
        (res.0@, res.1@, res.2@, res.3@) == spec_prepare_encaps::<H>(
            encapsulation_key_pq@,
            encapsulation_key_t@,
            randomness_pq@,
            randomness_t@,
        ),
        res.2@.len() == <H::KemPQ as PostQuantumKem>::spec_ciphertext_size(),
        <H::GroupT as NominalGroup>::spec_element_valid(res.3@),
        forall|o: Seq<u8>|
            o.len() == <H::GroupT as NominalGroup>::spec_scalar_size() && scalar_in_range(
                o,
                <H::GroupT as NominalGroup>::spec_order(),
            ) ==> #[trigger] <H::GroupT as NominalGroup>::spec_shared_secret(o, res.3@)
                == <H::GroupT as NominalGroup>::spec_shared_secret(
                spec_random_scalar::<H::GroupT>(randomness_t@).unwrap(),
                <H::GroupT as NominalGroup>::spec_exp_generator(o),
            ),
{
    // (ss_PQ, ct_PQ) = KEM_PQ.Encaps(ek_PQ)
    let (ciphertext_pq, shared_secret_pq) =
        <H::KemPQ as EncapsulateDeterministic>::encapsulate_deterministic(encapsulation_key_pq, randomness_pq);
    // sk_E = Group_T.RandomScalar(random(Group_T.Nseed))
    let secret_key_e = <H::GroupT as RandomScalar>::random_scalar(randomness_t).unwrap();
    proof {
        lemma_random_scalar_valid::<H::GroupT>(randomness_t@);
    }
    // ct_T = Group_T.Exp(Group_T.g, sk_E)
    let ciphertext_t = <H::GroupT as NominalGroup>::exp_generator(&secret_key_e);
    // ss_T = Group_T.ElementToSharedSecret(Group_T.Exp(ek_T, sk_E))
    let shared_secret_t = <H::GroupT as NominalGroup>::shared_secret(&secret_key_e, encapsulation_key_t);
    (shared_secret_pq, shared_secret_t, ciphertext_pq, ciphertext_t)
}

/// prepareDecapsG(ct_PQ, ct_T, dk_PQ, dk_T).
pub fn prepare_decaps_g<H: HybridKemParameter>(
    ciphertext_pq: &[u8],
    ciphertext_t: &[u8],
    decapsulation_key_pq: &[u8],
    decapsulation_key_t: &[u8],
) -> (res: (Vec<u8>, Vec<u8>))
    requires
        ciphertext_pq@.len() == <H::KemPQ as PostQuantumKem>::spec_ciphertext_size(),
        <H::GroupT as NominalGroup>::spec_element_valid(ciphertext_t@),
        decapsulation_key_pq@.len() == <H::KemPQ as PostQuantumKem>::spec_seed_size(),
        decapsulation_key_t@.len() == <H::GroupT as NominalGroup>::spec_scalar_size(),
        scalar_in_range(decapsulation_key_t@, <H::GroupT as NominalGroup>::spec_order()),
    ensures
        (res.0@, res.1@) == spec_prepare_decaps::<H>(
            ciphertext_pq@,
            ciphertext_t@,
            decapsulation_key_pq@,
            decapsulation_key_t@,
        ),
{
    // ss_PQ = KEM_PQ.Decaps(dk_PQ, ct_PQ)
    let shared_secret_pq = <H::KemPQ as PostQuantumKem>::decapsulate(decapsulation_key_pq, ciphertext_pq);
    // ss_T = Group_T.ElementToSharedSecret(Group_T.Exp(ct_T, dk_T))
    let shared_secret_t = <H::GroupT as NominalGroup>::shared_secret(decapsulation_key_t, ciphertext_t);
    (shared_secret_pq, shared_secret_t)
}

/// C2PRICombiner(ss_PQ, ss_T, ct_T, ek_T, label).
pub fn c2pri_combiner<H: HybridKemParameter>(
    shared_secret_pq: &[u8],
    shared_secret_t: &[u8],
    ciphertext_t: &[u8],
    encapsulation_key_t: &[u8],
    label: &[u8],
) -> (ss: Vec<u8>)
    ensures
        ss@ == spec_c2pri_combiner::<H>(
            shared_secret_pq@,
            shared_secret_t@,
            ciphertext_t@,
            encapsulation_key_t@,
            label@,
        ),
        ss@.len() == H::spec_shared_secret_size(),
        ss@ == H::spec_kdf(shared_secret_pq@ + shared_secret_t@ + ciphertext_t@ + encapsulation_key_t@ + label@),
{
    let input = concat_bytes(&concat_bytes(&concat_bytes(&concat_bytes(shared_secret_pq, shared_secret_t), ciphertext_t), encapsulation_key_t), label);
    H::kdf(&input)
}

// ---------------------------------------------------------------------------
// Keys
// ---------------------------------------------------------------------------

/// A hybrid encapsulation key `(ek_PQ, ek_T)`.
#[derive(Debug)]
pub struct HybridKemEncapsulationKey<H: HybridKemParameter> {
    encapsulation_key_pq: Vec<u8>,
    encapsulation_key_t: Vec<u8>,
    parameter: PhantomData<H>,
}

impl<H: HybridKemParameter> View for HybridKemEncapsulationKey<H> {
    type V = (Seq<u8>, Seq<u8>);

    closed spec fn view(&self) -> (Seq<u8>, Seq<u8>) {
        (self.encapsulation_key_pq@, self.encapsulation_key_t@)
    }
}

impl<H: HybridKemParameter> Clone for HybridKemEncapsulationKey<H> {
    fn clone(&self) -> (res: Self)
        ensures
            res@ == self@,
    {
        proof {
            use_type_invariant(self);
        }
        HybridKemEncapsulationKey {
            encapsulation_key_pq: vstd::slice::slice_to_vec(self.encapsulation_key_pq.as_slice()),
            encapsulation_key_t: vstd::slice::slice_to_vec(self.encapsulation_key_t.as_slice()),
            parameter: PhantomData,
        }
    }
}

impl<H: HybridKemParameter> HybridKemEncapsulationKey<H> {
    #[verifier::type_invariant]
    spec fn well_formed(self) -> bool {
        spec_encapsulation_key_valid::<H>(self@)
    }

    /// Encaps(ek) with explicit randomness (draft-irtf-cfrg-hybrid-kems-12,
    /// section 5.5): `(ss_H, ct_H)` where `ct_H = ct_PQ || ct_T`.
    ///
    /// Whoever holds a decapsulation key for this encapsulation key recovers
    /// `ss_H` from `ct_H`, provided the post-quantum KEM decapsulates its own
    /// ciphertext correctly.
    pub fn encapsulate_deterministic(&self, randomness_pq: &[u8], randomness_t: &[u8]) -> (res: (
        Vec<u8>,
        Vec<u8>,
    ))
        requires
            randomness_pq@.len() == <H::KemPQ as EncapsulateDeterministic>::spec_randomness_size(),
            spec_random_scalar::<H::GroupT>(randomness_t@) is Some,
        ensures
            (res.0@, res.1@) == spec_encapsulate::<H>(self@, randomness_pq@, randomness_t@),
            res.0@.len() == H::spec_shared_secret_size(),
            res.1@.len() == spec_ciphertext_size::<H>(),
            <H::GroupT as NominalGroup>::spec_element_valid(
                <H::GroupT as NominalGroup>::spec_exp_generator(
                    spec_random_scalar::<H::GroupT>(randomness_t@).unwrap(),
                ),
            ),
            spec_encapsulation_key_valid::<H>(self@),
            res.1@.subrange(0, <H::KemPQ as PostQuantumKem>::spec_ciphertext_size() as int)
                == <H::KemPQ as EncapsulateDeterministic>::spec_encapsulate(self@.0, randomness_pq@).0,
            res.1@.subrange(<H::KemPQ as PostQuantumKem>::spec_ciphertext_size() as int, res.1@.len() as int)
                == <H::GroupT as NominalGroup>::spec_exp_generator(
                spec_random_scalar::<H::GroupT>(randomness_t@).unwrap(),
            ),
            forall|seed: Seq<u8>|
                spec_decapsulation_key_of::<H>(seed, self@) && spec_pq_decapsulates_correctly::<H>(
                    seed,
                    randomness_pq@,
                ) ==> #[trigger] spec_decapsulate::<H>(seed, res.1@) == Ok::<Seq<u8>, DecapsulationError>(res.0@),
    {
        proof {
            use_type_invariant(self);
        }
        // (ek_PQ, ek_T) = split(KEM_PQ.Nek, Group_T.Nelem, ek)
        let encapsulation_key_pq = self.encapsulation_key_pq.as_slice();
        let encapsulation_key_t = self.encapsulation_key_t.as_slice();
        // (ss_PQ, ss_T, ct_PQ, ct_T) = prepareEncapsG(ek_PQ, ek_T)
        let (shared_secret_pq, shared_secret_t, ciphertext_pq, ciphertext_t) = prepare_encaps_g::<H>(
            encapsulation_key_pq,
            encapsulation_key_t,
            randomness_pq,
            randomness_t,
        );
        // ss_H = C2PRICombiner(ss_PQ, ss_T, ct_T, ek_T, Label)
        let label = H::label();
        let shared_secret_h = c2pri_combiner::<H>(
            &shared_secret_pq,
            &shared_secret_t,
            &ciphertext_t,
            encapsulation_key_t,
            &label,
        );
        // ct_H = concat(ct_PQ, ct_T)
        let ciphertext_h = concat_bytes(&ciphertext_pq, &ciphertext_t);
        proof {
            let n = <H::KemPQ as PostQuantumKem>::spec_ciphertext_size() as int;
            <H::GroupT as NominalGroup>::lemma_valid_element_size(ciphertext_t@);
            assert(ciphertext_h@.subrange(0, n) =~= ciphertext_pq@);
            assert(ciphertext_h@.subrange(n, ciphertext_h@.len() as int) =~= ciphertext_t@);
            assert forall|seed: Seq<u8>|
                spec_decapsulation_key_of::<H>(seed, self@) && spec_pq_decapsulates_correctly::<H>(
                    seed,
                    randomness_pq@,
                ) implies #[trigger] spec_decapsulate::<H>(seed, ciphertext_h@) == Ok::<Seq<u8>, DecapsulationError>(
                shared_secret_h@,
            ) by {
                lemma_expand_decaps_key_valid::<H>(seed);
                let k = spec_expand_decaps_key::<H>(seed).unwrap();
                assert(<H::GroupT as NominalGroup>::spec_shared_secret(k.3, ciphertext_t@)
                    == shared_secret_t@);
            }
        }
        // return (ss_H, ct_H)
        (shared_secret_h, ciphertext_h)
    }

    /// The encoding `ek_PQ || ek_T`.
    pub fn to_bytes(&self) -> (bytes: Vec<u8>)
        ensures
            bytes@ == self@.0 + self@.1,
            bytes@.len() == spec_encapsulation_key_size::<H>(),
            spec_split_encapsulation_key::<H>(bytes@) == self@,
            spec_encapsulation_key_valid::<H>(self@),
    {
        proof {
            use_type_invariant(self);
            <H::KemPQ as PostQuantumKem>::lemma_checked_key_size(self@.0);
            <H::GroupT as NominalGroup>::lemma_valid_element_size(self@.1);
        }
        let bytes = concat_bytes(self.encapsulation_key_pq.as_slice(), self.encapsulation_key_t.as_slice());
        proof {
            let n = <H::KemPQ as PostQuantumKem>::spec_encapsulation_key_size() as int;
            assert(bytes@.subrange(0, n) =~= self@.0);
            assert(bytes@.subrange(n, bytes@.len() as int) =~= self@.1);
        }
        bytes
    }

    /// Decodes `ek_PQ || ek_T`, rejecting it unless both parts are accepted
    /// by their schemes.
    pub fn new(key: &[u8]) -> (res: Result<Self, InvalidKey>)
        requires
            key@.len() == spec_encapsulation_key_size::<H>(),
        ensures
            res is Ok <==> spec_encapsulation_key_valid::<H>(spec_split_encapsulation_key::<H>(key@)),
            res matches Ok(ek) ==> ek@ == spec_split_encapsulation_key::<H>(key@),
    {
        let n = <H::KemPQ as PostQuantumKem>::encapsulation_key_size();
        let (bytes_pq, bytes_t) = key.split_at(n);
        let encapsulation_key_pq = match <H::KemPQ as PostQuantumKem>::decode_encapsulation_key(bytes_pq) {
            Some(key) => key,
            None => {
                return Err(InvalidKey);
            },
        };
        let encapsulation_key_t = match <H::GroupT as NominalGroup>::decode_element(bytes_t) {
            Some(point) => point,
            None => {
                return Err(InvalidKey);
            },
        };
        Ok(HybridKemEncapsulationKey {
            encapsulation_key_pq,
            encapsulation_key_t,
            parameter: PhantomData,
        })
    }
}

/// A hybrid decapsulation key, held as its seed, together with the
/// encapsulation key derived from it.
pub struct HybridKemDecapsulationKey<H: HybridKemParameter> {
    seed: Vec<u8>,
    encapsulation_key: HybridKemEncapsulationKey<H>,
}

impl<H: HybridKemParameter> View for HybridKemDecapsulationKey<H> {
    type V = Seq<u8>;

    closed spec fn view(&self) -> Seq<u8> {
        self.seed@
    }
}

impl<H: HybridKemParameter> HybridKemDecapsulationKey<H> {
    #[verifier::type_invariant]
    spec fn well_formed(self) -> bool {
        &&& self.seed@.len() == H::spec_decapsulation_key_size()
        &&& spec_decapsulation_key_of::<H>(self.seed@, self.encapsulation_key@)
    }

    /// The seed.
    pub fn as_bytes(&self) -> (bytes: &[u8])
        ensures
            bytes@ == self@,
            bytes@.len() == H::spec_decapsulation_key_size(),
    {
        proof {
            use_type_invariant(self);
        }
        self.seed.as_slice()
    }

    /// The encapsulation key derived from the seed.
    pub fn encapsulation_key(&self) -> (ek: &HybridKemEncapsulationKey<H>)
        ensures
            spec_decapsulation_key_of::<H>(self@, ek@),
    {
        proof {
            use_type_invariant(self);
        }
        &self.encapsulation_key
    }

    /// Decaps(dk, ct) (draft-irtf-cfrg-hybrid-kems-12, section 5.5): fails
    /// exactly when ct_T is not a group element.
    pub fn try_decapsulate(&self, ciphertext: &[u8]) -> (res: Result<Vec<u8>, DecapsulationError>)
        requires
            ciphertext@.len() == spec_ciphertext_size::<H>(),
        ensures
            match res {
                Ok(ss) => spec_decapsulate::<H>(self@, ciphertext@) == Ok::<Seq<u8>, DecapsulationError>(ss@),
                Err(_) => spec_decapsulate::<H>(self@, ciphertext@) is Err,
            },
            res matches Ok(ss) ==> ss@.len() == H::spec_shared_secret_size(),
    {
        proof {
            use_type_invariant(self);
        }
        // (ct_PQ, ct_T) = split(KEM_PQ.Nct, Group_T.Nelem, ct)
        let n = <H::KemPQ as PostQuantumKem>::ciphertext_size();
        let (ciphertext_pq, ciphertext_t) = ciphertext.split_at(n);
        let ciphertext_t = match <H::GroupT as NominalGroup>::decode_element(ciphertext_t) {
            Some(point) => point,
            None => {
                return Err(DecapsulationError);
            },
        };
        // (ek_PQ, ek_T, dk_PQ, dk_T) = expandDecapsKeyG(dk)
        let keys = expand_decaps_key_g::<H>(self.seed.as_slice());
        let (_encapsulation_key_pq, encapsulation_key_t, decapsulation_key_pq, decapsulation_key_t) = keys;
        proof {
            lemma_expand_decaps_key_valid::<H>(self@);
        }
        // (ss_PQ, ss_T) = prepareDecapsG(ct_PQ, ct_T, dk_PQ, dk_T)
        let (shared_secret_pq, shared_secret_t) = prepare_decaps_g::<H>(
            ciphertext_pq,
            &ciphertext_t,
            &decapsulation_key_pq,
            &decapsulation_key_t,
        );
        // ss_H = C2PRICombiner(ss_PQ, ss_T, ct_T, ek_T, Label)
        let label = H::label();
        let shared_secret_h = c2pri_combiner::<H>(
            &shared_secret_pq,
            &shared_secret_t,
            &ciphertext_t,
            &encapsulation_key_t,
            &label,
        );
        Ok(shared_secret_h)
    }

    /// DeriveKeyPair(seed) (draft-irtf-cfrg-hybrid-kems-12, section 5.5):
    /// the key holds the seed and the encapsulation key `ek_PQ || ek_T`
    /// derived from it. The seed must expand (RandomScalar must succeed on
    /// the expanded seed); `try_new` checks this first.
    pub fn new(seed: &[u8]) -> (key: Self)
        requires
            seed@.len() == H::spec_decapsulation_key_size(),
            spec_expand_decaps_key::<H>(seed@) is Some,
        ensures
            key@ == seed@,
    {
        // (ek_PQ, ek_T, dk_PQ, dk_T) = expandDecapsKeyG(seed)
        let (encapsulation_key_pq, encapsulation_key_t, _decapsulation_key_pq, _decapsulation_key_t) =
            expand_decaps_key_g::<H>(seed);
        // return (seed, concat(ek_PQ, ek_T))
        proof {
            <H::KemPQ as PostQuantumKem>::lemma_checked_key_size(encapsulation_key_pq@);
            <H::GroupT as NominalGroup>::lemma_valid_element_size(encapsulation_key_t@);
        }
        let concatenated = concat_bytes(&encapsulation_key_pq, &encapsulation_key_t);
        proof {
            let n = <H::KemPQ as PostQuantumKem>::spec_encapsulation_key_size() as int;
            assert(concatenated@.subrange(0, n) =~= encapsulation_key_pq@);
            assert(concatenated@.subrange(n, concatenated@.len() as int) =~= encapsulation_key_t@);
        }
        let encapsulation_key = HybridKemEncapsulationKey::<H>::new(&concatenated).unwrap();
        HybridKemDecapsulationKey { seed: vstd::slice::slice_to_vec(seed), encapsulation_key }
    }

    /// DeriveKeyPair(seed), or `None` when RandomScalar fails on the expanded
    /// seed (which happens with cryptographically negligible probability).
    pub fn try_new(seed: &[u8]) -> (key: Option<Self>)
        requires
            seed@.len() == H::spec_decapsulation_key_size(),
        ensures
            key is Some <==> spec_expand_decaps_key::<H>(seed@) is Some,
            key matches Some(k) ==> k@ == seed@,
    {
        if seed_expands::<H>(seed) {
            Some(Self::new(seed))
        } else {
            None
        }
    }
}

} // verus!
