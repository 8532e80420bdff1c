use vstd::prelude::*;

use dusk_bls12_381::BlsScalar;
use ff::Field;
use rand_core::{CryptoRng, RngCore};

use crate::error::BytesError;
use crate::g1::g1_scaled;
use crate::g2::is_infinity_encoding;
use crate::hash::{h0, h0_spec, h1, h1_spec};
use crate::public::PublicKey;
use crate::scalar::{is_canonical_scalar, le_value, Scalar};
use crate::signature::{MultisigSignature, Signature};

verus! {

/// What the decoding of a secret key's encoding gives.
pub open spec fn scalar_decode_spec(b: Seq<u8>) -> Result<Seq<u8>, BytesError> {
    if is_canonical_scalar(b) {
        Ok(b)
    } else {
        Err(BytesError::InvalidData)
    }
}

/// A BLS secret key, holding a scalar. Can be used for signing messages.
///
/// The key is overwritten with zero when it goes out of scope, and on request
/// by `zeroize`.
#[derive(Clone, Debug, PartialEq, Eq)]
pub struct SecretKey(pub(crate) Scalar);

impl View for SecretKey {
    type V = Seq<u8>;

    open(crate) spec fn view(&self) -> Seq<u8> {
        self.0@
    }
}

impl From<Scalar> for SecretKey {
    /// The secret key that holds the scalar `s`.
    fn from(s: Scalar) -> (r: SecretKey)
        ensures
            r@ == s@,
    {
        SecretKey(s)
    }
}

impl vstd::std_specs::convert::FromSpecImpl<Scalar> for SecretKey {
    open spec fn obeys_from_spec() -> bool {
        false
    }

    open spec fn from_spec(s: Scalar) -> SecretKey {
        arbitrary()
    }
}

impl Drop for SecretKey {
    /// Overwrites the key with zero when it goes out of scope.
    fn drop(&mut self)
        opens_invariants none
        no_unwind
    {
        self.0.zeroize();
    }
}

impl Default for SecretKey {
    /// The zero key.
    fn default() -> (r: SecretKey)
        ensures
            le_value(r@) == 0,
    {
        SecretKey(Scalar::zero())
    }
}

impl SecretKey {
    /// Size of the encoding.
    pub const SIZE: usize = 32;

    /// Relies on `ff::Field::random` for `BlsScalar`: 64 bytes drawn from the
    /// generator, reduced modulo the field order.
    #[verifier::external_body]
    pub fn random<T>(rand: &mut T) -> (r: SecretKey)
        where
            T: RngCore + CryptoRng,
    {
        SecretKey(Scalar { bytes: BlsScalar::random(&mut *rand).to_bytes() })
    }

    /// The encoding, little-endian.
    pub fn to_bytes(&self) -> (r: [u8; 32])
        ensures
            r@ == self@,
            is_canonical_scalar(r@),
    {
        self.0.to_bytes()
    }

    /// Decodes an encoding; fails unless it is canonical.
    pub fn from_bytes(bytes: &[u8; 32]) -> (r: Result<SecretKey, BytesError>)
        ensures
            r is Ok ==> scalar_decode_spec(bytes@) == Ok::<Seq<u8>, BytesError>(r->Ok_0@),
            r is Err ==> scalar_decode_spec(bytes@) == Err::<Seq<u8>, BytesError>(r->Err_0),
    {
        match Scalar::from_bytes(bytes) {
            Some(s) => Ok(SecretKey(s)),
            None => Err(BytesError::InvalidData),
        }
    }

    /// Sign a message, in the single-signature scheme: `H₀(msg) · sk`.
    pub fn sign(&self, msg: &[u8]) -> (r: Signature)
        ensures
            r@ == g1_scaled(h0_spec(msg@), self@),
            le_value(self@) == 0 ==> is_infinity_encoding(r@),
    {
        let h = h0(msg);
        Signature(h.mul(&self.0))
    }

    /// Sign a message, in the multi-signature scheme: the single signature
    /// weighted by `H₁(pk)`. `pk` must be the public key of this secret key.
    pub fn sign_multisig(&self, pk: &PublicKey, msg: &[u8]) -> (r: MultisigSignature)
        ensures
            r@ == g1_scaled(g1_scaled(h0_spec(msg@), self@), h1_spec(pk@)),
    {
        let sig = self.sign(msg);
        let t = h1(pk);
        MultisigSignature(sig.0.mul(&t))
    }

    /// Overwrites the key with zero.
    pub fn zeroize(&mut self)
        ensures
            le_value(final(self)@) == 0,
    {
        self.0.zeroize();
    }
}

} // verus!
