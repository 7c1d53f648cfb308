//! Mathematical descriptions of the byte encodings that the hybrid KEM
//! exchanges with its component schemes.

use vstd::prelude::*;

verus! {

/// OS2IP: the unsigned integer whose big-endian encoding is `bytes`.
pub open spec fn os2ip(bytes: Seq<u8>) -> nat
    decreases bytes.len(),
{
    if bytes.len() == 0 {
        0
    } else {
        os2ip(bytes.drop_last()) * 256 + bytes.last() as nat
    }
}

/// A secret scalar of a prime-order group: the big-endian value lies in
/// `[1, order)`.
pub open spec fn scalar_in_range(bytes: Seq<u8>, order: nat) -> bool {
    0 < os2ip(bytes) < order
}

/// A SEC1 uncompressed encoding (`0x04 || x || y`) of an affine point of the
/// short Weierstrass curve `y^2 = x^3 - 3x + b` over the prime field of
/// order `p`, with both coordinates canonical (below `p`).
pub open spec fn uncompressed_point_on_curve(bytes: Seq<u8>, field_len: nat, p: int, b: int) -> bool {
    let x = os2ip(bytes.subrange(1, 1 + field_len as int)) as int;
    let y = os2ip(bytes.subrange(1 + field_len as int, 1 + 2 * field_len as int)) as int;
    &&& bytes.len() == 1 + 2 * field_len
    &&& bytes[0] == 4
    &&& x < p
    &&& y < p
    &&& (y * y) % p == (x * x * x - 3 * x + b) % p
}

/// The order of the P-256 group.
pub open spec fn p256_order() -> nat {
    0xffffffff00000000ffffffffffffffffbce6faada7179e84f3b9cac2fc632551nat
}

/// The prime of the P-256 base field.
pub open spec fn p256_field_prime() -> int {
    0xffffffff00000001000000000000000000000000ffffffffffffffffffffffffint
}

/// The constant `b` of the P-256 curve equation.
pub open spec fn p256_curve_b() -> int {
    0x5ac635d8aa3a93e7b3ebbd55769886bc651d06b0cc53b0f63bce3c3e27d2604bint
}

/// The order of the P-384 group.
pub open spec fn p384_order() -> nat {
    0xffffffffffffffffffffffffffffffffffffffffffffffffc7634d81f4372ddf581a0db248b0a77aecec196accc52973nat
}

/// The prime of the P-384 base field.
pub open spec fn p384_field_prime() -> int {
    0xfffffffffffffffffffffffffffffffffffffffffffffffffffffffffffffffeffffffff0000000000000000ffffffffint
}

/// The constant `b` of the P-384 curve equation.
pub open spec fn p384_curve_b() -> int {
    0xb3312fa7e23ee7e4988e056be3f82d19181d9c6efe8141120314088f5013875ac656398d8a2ed19d2a85c8edd3ec2aefint
}

/// A valid P-256 public key: a 65-byte uncompressed point on the curve.
pub open spec fn p256_point_valid(bytes: Seq<u8>) -> bool {
    uncompressed_point_on_curve(bytes, 32, p256_field_prime(), p256_curve_b())
}

/// A valid P-384 public key: a 97-byte uncompressed point on the curve.
pub open spec fn p384_point_valid(bytes: Seq<u8>) -> bool {
    uncompressed_point_on_curve(bytes, 48, p384_field_prime(), p384_curve_b())
}

/// The two 12-bit coefficients packed little-endian in bytes `3i .. 3i + 3`
/// of an ML-KEM encapsulation key are both reduced modulo `q = 3329`.
pub open spec fn mlkem_coefficient_pair_reduced(ek: Seq<u8>, i: int) -> bool {
    let b0 = ek[3 * i] as int;
    let b1 = ek[3 * i + 1] as int;
    let b2 = ek[3 * i + 2] as int;
    &&& b0 + 256 * (b1 % 16) < 3329
    &&& b1 / 16 + 16 * b2 < 3329
}

/// The FIPS 203 encapsulation key check for module rank `k`: the key is
/// `384k + 32` bytes long and every coefficient of its encoded vector
/// `t_hat` (the first `384k` bytes) is below `q`, so that
/// `ByteEncode12(ByteDecode12(..))` gives the bytes back.
pub open spec fn mlkem_encapsulation_key_checked(ek: Seq<u8>, k: nat) -> bool {
    &&& ek.len() == 384 * k + 32
    &&& forall|i: int| 0 <= i < 128 * k ==> #[trigger] mlkem_coefficient_pair_reduced(ek, i)
}

/// The `i`-th chunk of `n` bytes of `seed`.
pub open spec fn scalar_chunk(seed: Seq<u8>, n: nat, i: int) -> Seq<u8> {
    seed.subrange(i * n, i * n + n)
}

/// The first of the first `k` chunks of `n` bytes of `seed` that is a scalar
/// in `[1, order)`, if any.
pub open spec fn first_accepted_scalar_among(seed: Seq<u8>, n: nat, order: nat, k: nat) -> Option<Seq<u8>>
    decreases k,
{
    if k == 0 {
        None
    } else {
        match first_accepted_scalar_among(seed, n, order, (k - 1) as nat) {
            Some(sk) => Some(sk),
            None => if scalar_in_range(scalar_chunk(seed, n, k - 1), order) {
                Some(scalar_chunk(seed, n, k - 1))
            } else {
                None
            },
        }
    }
}

/// RandomScalar(seed): rejection sampling over the consecutive `n`-byte
/// chunks of `seed` (a trailing partial chunk is never read).
pub open spec fn first_accepted_scalar(seed: Seq<u8>, n: nat, order: nat) -> Option<Seq<u8>> {
    first_accepted_scalar_among(seed, n, order, seed.len() / n)
}

/// Chunk `i` of `n` bytes lies inside a string of `len` bytes when `i` is
/// below `len / n`.
pub proof fn lemma_chunk_in_bounds(len: nat, n: nat, i: nat)
    requires
        0 < n,
        i < len / n,
    ensures
        i * n + n <= len,
{
    assert((i + 1) * n <= (len / n) * n) by (nonlinear_arith)
        requires
            i + 1 <= len / n,
            0 < n,
    ;
    assert((len / n) * n <= len) by (nonlinear_arith)
        requires
            0 < n,
    ;
    assert((i + 1) * n == i * n + n) by (nonlinear_arith);
}

/// Once a chunk has been accepted, looking at more chunks changes nothing.
pub proof fn lemma_first_accepted_stable(seed: Seq<u8>, n: nat, order: nat, k: nat, m: nat)
    requires
        k <= m,
        first_accepted_scalar_among(seed, n, order, k) is Some,
    ensures
        first_accepted_scalar_among(seed, n, order, m) == first_accepted_scalar_among(seed, n, order, k),
    decreases m - k,
{
    if k < m {
        lemma_first_accepted_stable(seed, n, order, k, (m - 1) as nat);
    }
}

/// An accepted chunk is an `n`-byte scalar in range.
pub proof fn lemma_first_accepted_in_range(seed: Seq<u8>, n: nat, order: nat, k: nat)
    requires
        0 < n,
        k <= seed.len() / n,
    ensures
        first_accepted_scalar_among(seed, n, order, k) matches Some(sk) ==> sk.len() == n
            && scalar_in_range(sk, order),
    decreases k,
{
    if k > 0 {
        lemma_first_accepted_in_range(seed, n, order, (k - 1) as nat);
        lemma_chunk_in_bounds(seed.len(), n, (k - 1) as nat);
    }
}

/// The concatenation of two byte strings.
pub fn concat_bytes(a: &[u8], b: &[u8]) -> (r: Vec<u8>)
    ensures
        r@ == a@ + b@,
{
    let mut r = vstd::slice::slice_to_vec(a);
    let mut i: usize = 0;
    while i < b.len()
        invariant
            i <= b@.len(),
            r@ == a@ + b@.subrange(0, i as int),
        decreases b@.len() - i,
    {
        r.push(b[i]);
        i = i + 1;
        assert(a@ + b@.subrange(0, i as int) =~= (a@ + b@.subrange(0, i - 1)).push(b@[i - 1]));
    }
    assert(b@.subrange(0, b@.len() as int) =~= b@);
    r
}

} // verus!
