//! The two hash functions that bind the scheme to the curve.
use vstd::prelude::*;

use crate::g1::{g1_generator_scaled, G1Point};
use crate::public::PublicKey;
use crate::scalar::{hash_to_scalar_of, Scalar};

verus! {

/// `H₀ : M → G₁`, the message hashed to a scalar that multiplies the generator.
pub open spec fn h0_spec(msg: Seq<u8>) -> Seq<u8> {
    g1_generator_scaled(hash_to_scalar_of(msg))
}

/// `H₁ : G₂ → F_r`, the compressed encoding of a public key hashed to a scalar.
pub open spec fn h1_spec(pk: Seq<u8>) -> Seq<u8> {
    hash_to_scalar_of(pk)
}

/// The hash-to-curve-point function.
pub fn h0(msg: &[u8]) -> (r: G1Point)
    ensures
        r@ == h0_spec(msg@),
{
    G1Point::generator_mul(&Scalar::hash(msg))
}

/// The hash of a public key that weights it in the multi-signature scheme.
pub fn h1(pk: &PublicKey) -> (r: Scalar)
    ensures
        r@ == h1_spec(pk@),
{
    let bytes = pk.to_bytes();
    Scalar::hash(&bytes)
}

} // verus!
