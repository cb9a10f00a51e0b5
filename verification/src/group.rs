//! Arithmetic in the prime-order curve25519 twisted Edwards group.
//!
//! A group element or scalar lives in this library as its canonical
//! 32-byte compressed encoding; the arkworks curve does the actual
//! arithmetic behind trusted wrappers.  Equal group elements have equal
//! canonical encodings, so the contracts below speak of encodings alone.

use ark_ec::Group;
use ark_ff::UniformRand;
use ark_serialize::CanonicalDeserialize;
use ark_serialize::CanonicalSerialize;
use vstd::prelude::*;

verus! {

/// Holds iff `bytes` is the canonical compressed encoding of an element of
/// the scalar field, as `ark_curve25519::Fr::deserialize_compressed`
/// accepts and `serialize_compressed` produces.
pub uninterp spec fn is_scalar_enc(bytes: Seq<u8>) -> bool;

/// Holds iff `bytes` is the canonical compressed encoding of an element of
/// the prime-order group, as `EdwardsProjective::deserialize_compressed`
/// (with full validation) accepts and `serialize_compressed` produces.
pub uninterp spec fn is_point_enc(bytes: Seq<u8>) -> bool;

/// The encoding of `g^s`: the fixed group generator raised to the scalar
/// encoded by `s`.
pub uninterp spec fn base_mul_enc(s: Seq<u8>) -> Seq<u8>;

/// The encoding of `p^s`: the group element encoded by `p` raised to the
/// scalar encoded by `s`.
pub uninterp spec fn mul_enc(p: Seq<u8>, s: Seq<u8>) -> Seq<u8>;

/// The encoding of the group sum of the elements encoded by `p` and `q`.
pub uninterp spec fn add_enc(p: Seq<u8>, q: Seq<u8>) -> Seq<u8>;

/// The encoding of the group difference of the elements encoded by `p` and
/// `q`.
pub uninterp spec fn sub_enc(p: Seq<u8>, q: Seq<u8>) -> Seq<u8>;

#[verifier::external_type_specification]
#[verifier::external_body]
pub struct ExStdRng(rand::rngs::StdRng);

/// An element of the prime-order group, held as its canonical compressed
/// encoding.  Every `Point` the library hands out satisfies
/// `is_point_enc(self@)`.
#[derive(Clone, Copy)]
pub struct Point {
    bytes: [u8; 32],
}

/// An element of the group's scalar field, held as its canonical compressed
/// encoding.  Every `Scalar` the library hands out satisfies
/// `is_scalar_enc(self@)`.
pub struct Scalar {
    bytes: [u8; 32],
}

impl View for Point {
    type V = Seq<u8>;

    closed spec fn view(&self) -> Seq<u8> {
        self.bytes@
    }
}

impl View for Scalar {
    type V = Seq<u8>;

    closed spec fn view(&self) -> Seq<u8> {
        self.bytes@
    }
}

impl Point {
    /// The canonical compressed encoding of this group element.
    pub fn to_bytes(&self) -> (r: [u8; 32])
        ensures
            r@ == self@,
    {
        self.bytes
    }
}

/// Relies on `ark_ff::UniformRand` (`Fr::rand`) to sample a uniformly
/// random scalar from the given generator, and on
/// `ark_serialize::CanonicalSerialize::serialize_compressed`, whose 32-byte
/// output is a valid canonical scalar encoding.  The result is random, so
/// nothing more is promised of it.
#[verifier::external_body]
pub(crate) fn sample_scalar(rng: &mut rand::rngs::StdRng) -> (r: Scalar)
    ensures
        is_scalar_enc(r@),
{
    let s = ark_curve25519::Fr::rand(rng);
    let mut buf: Vec<u8> = Vec::new();
    s.serialize_compressed(&mut buf).unwrap();
    let mut bytes = [0u8; 32];
    bytes.copy_from_slice(&buf);
    Scalar { bytes }
}

/// Relies on `ark_ec::Group::generator` and scalar multiplication of the
/// curve25519 group, with canonical (de)serialization at the boundary.  The
/// result is a function of the scalar alone, named `base_mul_enc`.  The
/// quantified clause is the group law that scalar multiplications commute:
/// `(g^s)^t == (g^t)^s`, stated of this call's result.
#[verifier::external_body]
pub(crate) fn base_mul(s: &Scalar) -> (r: Point)
    requires
        is_scalar_enc(s@),
    ensures
        r@ == base_mul_enc(s@),
        is_point_enc(r@),
        forall|t: Seq<u8>|
            is_scalar_enc(t) ==> (#[trigger] mul_enc(r@, t)) == mul_enc(base_mul_enc(t), s@),
{
    let scalar = ark_curve25519::Fr::deserialize_compressed(&s.bytes[..]).unwrap();
    let point = ark_curve25519::EdwardsProjective::generator() * scalar;
    let mut buf: Vec<u8> = Vec::new();
    point.serialize_compressed(&mut buf).unwrap();
    let mut bytes = [0u8; 32];
    bytes.copy_from_slice(&buf);
    Point { bytes }
}

/// Relies on scalar multiplication of the curve25519 group
/// (`EdwardsProjective * Fr`), with canonical (de)serialization at the
/// boundary.  The result is a function of the two encodings alone, named
/// `mul_enc`.
#[verifier::external_body]
pub(crate) fn point_mul(p: &Point, s: &Scalar) -> (r: Point)
    requires
        is_point_enc(p@),
        is_scalar_enc(s@),
    ensures
        r@ == mul_enc(p@, s@),
        is_point_enc(r@),
{
    let point = ark_curve25519::EdwardsProjective::deserialize_compressed(&p.bytes[..]).unwrap();
    let scalar = ark_curve25519::Fr::deserialize_compressed(&s.bytes[..]).unwrap();
    let product = point * scalar;
    let mut buf: Vec<u8> = Vec::new();
    product.serialize_compressed(&mut buf).unwrap();
    let mut bytes = [0u8; 32];
    bytes.copy_from_slice(&buf);
    Point { bytes }
}

/// Relies on group addition of the curve25519 group, with canonical
/// (de)serialization at the boundary.  The last clause is the group law
/// that subtraction undoes addition: `(p + q) - q == p`, stated of this
/// call's result.
#[verifier::external_body]
pub(crate) fn point_add(p: &Point, q: &Point) -> (r: Point)
    requires
        is_point_enc(p@),
        is_point_enc(q@),
    ensures
        r@ == add_enc(p@, q@),
        is_point_enc(r@),
        sub_enc(r@, q@) == p@,
{
    let left = ark_curve25519::EdwardsProjective::deserialize_compressed(&p.bytes[..]).unwrap();
    let right = ark_curve25519::EdwardsProjective::deserialize_compressed(&q.bytes[..]).unwrap();
    let sum = left + right;
    let mut buf: Vec<u8> = Vec::new();
    sum.serialize_compressed(&mut buf).unwrap();
    let mut bytes = [0u8; 32];
    bytes.copy_from_slice(&buf);
    Point { bytes }
}

/// Relies on group subtraction of the curve25519 group, with canonical
/// (de)serialization at the boundary.  The result is a function of the two
/// encodings alone, named `sub_enc`.
#[verifier::external_body]
pub(crate) fn point_sub(p: &Point, q: &Point) -> (r: Point)
    requires
        is_point_enc(p@),
        is_point_enc(q@),
    ensures
        r@ == sub_enc(p@, q@),
        is_point_enc(r@),
{
    let left = ark_curve25519::EdwardsProjective::deserialize_compressed(&p.bytes[..]).unwrap();
    let right = ark_curve25519::EdwardsProjective::deserialize_compressed(&q.bytes[..]).unwrap();
    let difference = left - right;
    let mut buf: Vec<u8> = Vec::new();
    difference.serialize_compressed(&mut buf).unwrap();
    let mut bytes = [0u8; 32];
    bytes.copy_from_slice(&buf);
    Point { bytes }
}

} // verus!
