//! The outside cryptography the gateway relies on: NIST P-256 key agreement
//! (crate `p256`), SHA-256 (crate `sha2`) and Base64 (crate `base64`).
//! Keys and points are handled as plain bytes: a secret key as its 32-byte
//! big-endian scalar, a point as its SEC1 encoding.

use vstd::prelude::*;
use base64::Engine;
use p256::elliptic_curve::point::AffineCoordinates;
use p256::elliptic_curve::rand_core::OsRng;
use sha2::Digest;
use std::ops::Mul;

verus! {

/// Whether `p256::SecretKey::from_slice` accepts these bytes as a secret scalar.
pub uninterp spec fn p256_secret_valid(secret: Seq<u8>) -> bool;

/// Whether `p256::PublicKey::from_sec1_bytes` accepts these bytes as a point.
pub uninterp spec fn p256_point_valid(sec1: Seq<u8>) -> bool;

/// The SEC1 encoding of the public key of a secret scalar.
pub uninterp spec fn p256_public_key(secret: Seq<u8>) -> Seq<u8>;

/// The SEC1 encoding of the point `secret * point`.
pub uninterp spec fn p256_mul(secret: Seq<u8>, point: Seq<u8>) -> Seq<u8>;

/// The affine x-coordinate of a point, as 32 big-endian bytes.
pub uninterp spec fn p256_x_coordinate(point: Seq<u8>) -> Seq<u8>;

/// The SHA-256 digest of some bytes.
pub uninterp spec fn sha256(data: Seq<u8>) -> Seq<u8>;

/// The character of a 6-bit value in the standard Base64 alphabet
/// (`A`-`Z`, `a`-`z`, `0`-`9`, `+`, `/`).
pub open spec fn base64_char(n: int) -> char {
    if n < 26 {
        (n + 65) as char
    } else if n < 52 {
        (n - 26 + 97) as char
    } else if n < 62 {
        (n - 52 + 48) as char
    } else if n == 62 {
        '+'
    } else {
        '/'
    }
}

/// The standard Base64 text of some bytes (RFC 4648, section 4): each group of
/// three bytes becomes four characters of six bits each, and a last group of
/// one or two bytes is padded with `=`.
pub open spec fn base64_standard(data: Seq<u8>) -> Seq<char>
    decreases data.len(),
{
    if data.len() == 0 {
        Seq::empty()
    } else if data.len() == 1 {
        let b0 = data[0] as int;
        seq![base64_char(b0 / 4), base64_char((b0 % 4) * 16), '=', '=']
    } else if data.len() == 2 {
        let b0 = data[0] as int;
        let b1 = data[1] as int;
        seq![base64_char(b0 / 4), base64_char((b0 % 4) * 16 + b1 / 16), base64_char((b1 % 16) * 4), '=']
    } else {
        let b0 = data[0] as int;
        let b1 = data[1] as int;
        let b2 = data[2] as int;
        seq![
            base64_char(b0 / 4),
            base64_char((b0 % 4) * 16 + b1 / 16),
            base64_char((b1 % 16) * 4 + b2 / 64),
            base64_char(b2 % 64),
        ] + base64_standard(data.skip(3))
    }
}

/// A fresh random secret key: `p256::SecretKey::random` drawn from the
/// operating system's generator, serialized with `to_bytes`. Claims only that
/// `from_slice` accepts the result again, which holds of every non-zero scalar
/// below the group order that `random` produces.
#[verifier::external_body]
pub(crate) fn generate_secret_key() -> (secret: Vec<u8>)
    ensures
        p256_secret_valid(secret@),
{
    p256::SecretKey::random(&mut OsRng).to_bytes().to_vec()
}

/// `SecretKey::public_key` followed by `PublicKey::to_sec1_bytes`. The result is
/// named by the secret; a public key always parses back with `from_sec1_bytes`.
#[verifier::external_body]
pub(crate) fn public_key_of(secret: &[u8]) -> (public: Vec<u8>)
    requires
        p256_secret_valid(secret@),
    ensures
        public@ == p256_public_key(secret@),
        p256_point_valid(public@),
{
    p256::SecretKey::from_slice(secret).unwrap().public_key().to_sec1_bytes().to_vec()
}

/// Whether `PublicKey::from_sec1_bytes` accepts `bytes`. Only a compressed
/// (33-byte) or an uncompressed (65-byte) encoding can be accepted: the
/// identity's one-byte encoding is refused, and any other length does not
/// match its tag.
#[verifier::external_body]
pub(crate) fn sec1_point_is_valid(bytes: &[u8]) -> (valid: bool)
    ensures
        valid == p256_point_valid(bytes@),
        valid ==> bytes@.len() == 33 || bytes@.len() == 65,
{
    p256::PublicKey::from_sec1_bytes(bytes).is_ok()
}

/// Scalar multiplication of a point (`NonIdentity<AffinePoint> * NonZeroScalar`),
/// re-encoded with `PublicKey::from_affine` and `to_sec1_bytes`. The product of a
/// non-zero scalar and a point other than the identity is not the identity, so
/// `from_affine` accepts it; NIST P-256 encodes points uncompressed (65 bytes).
#[verifier::external_body]
pub(crate) fn scalar_point_multiplication(scalar: &[u8], point: &[u8]) -> (product: Vec<u8>)
    requires
        p256_secret_valid(scalar@),
        p256_point_valid(point@),
    ensures
        product@ == p256_mul(scalar@, point@),
        p256_point_valid(product@),
        product@.len() == 65,
{
    let scalar = p256::SecretKey::from_slice(scalar).unwrap().to_nonzero_scalar();
    let point = p256::PublicKey::from_sec1_bytes(point).unwrap().to_nonidentity();
    let product = point.mul(*scalar).to_affine();
    p256::PublicKey::from_affine(product).unwrap().to_sec1_bytes().to_vec()
}

/// The x-coordinate of a point (`AffineCoordinates::x`), 32 bytes long.
#[verifier::external_body]
pub(crate) fn affine_x(point: &[u8]) -> (x: Vec<u8>)
    requires
        p256_point_valid(point@),
    ensures
        x@ == p256_x_coordinate(point@),
        x@.len() == 32,
{
    p256::PublicKey::from_sec1_bytes(point).unwrap().as_affine().x().to_vec()
}

/// `sha2::Sha256::digest`; the digest is 32 bytes long.
#[verifier::external_body]
pub(crate) fn sha256_digest(data: &[u8]) -> (digest: Vec<u8>)
    ensures
        digest@ == sha256(data@),
        digest@.len() == 32,
{
    sha2::Sha256::digest(data).to_vec()
}

/// `base64::engine::general_purpose::STANDARD.encode`: the standard alphabet
/// with padding.
#[verifier::external_body]
pub(crate) fn base64_encode(data: &[u8]) -> (text: String)
    ensures
        text@ == base64_standard(data@),
{
    base64::engine::general_purpose::STANDARD.encode(data)
}

} // verus!
