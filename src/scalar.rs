use vstd::prelude::*;

use dusk_bls12_381::BlsScalar;

use zeroize::Zeroize;

use crate::bytes::bytes_equal;

verus! {


/// The order `r` of the scalar field of BLS12-381.
pub open spec fn scalar_modulus() -> nat {
    0x73eda753299d7d483339d80809a1d80553bda402fffe5bfeffffffff00000001nat
}

/// The number that a byte string denotes, read little-endian.
pub open spec fn le_value(b: Seq<u8>) -> nat
    decreases b.len(),
{
    if b.len() == 0 {
        0
    } else {
        b[0] as nat + 256 * le_value(b.subrange(1, b.len() as int))
    }
}

/// Whether 32 bytes are the canonical encoding of a scalar: the number they
/// denote is below the field order.
pub open spec fn is_canonical_scalar(b: Seq<u8>) -> bool {
    b.len() == 32 && le_value(b) < scalar_modulus()
}

/// An element of the scalar field, held as its canonical little-endian encoding.
#[derive(Clone, Copy, Debug, Eq, Hash)]
pub struct Scalar {
    pub(crate) bytes: [u8; 32],
}

impl View for Scalar {
    type V = Seq<u8>;

    open(crate) spec fn view(&self) -> Seq<u8> {
        self.bytes@
    }
}

impl Scalar {
    #[verifier::type_invariant]
    spec fn inv(self) -> bool {
        is_canonical_scalar(self.bytes@)
    }
}

/// What `BlsScalar::hash_to_scalar` returns on the input, encoded.
pub uninterp spec fn hash_to_scalar_of(input: Seq<u8>) -> Seq<u8>;

impl Scalar {
    /// Size of the encoding.
    pub const SIZE: usize = 32;

    /// Relies on `BlsScalar::from_bytes`: it accepts exactly the encodings of
    /// numbers below the field order.
    #[verifier::external_body]
    fn is_canonical(b: &[u8; 32]) -> (r: bool)
        ensures
            r == is_canonical_scalar(b@),
    {
        bool::from(BlsScalar::from_bytes(b).is_some())
    }

    /// Decodes a canonical encoding.
    pub fn from_bytes(b: &[u8; 32]) -> (r: Option<Scalar>)
        ensures
            r is Some <==> is_canonical_scalar(b@),
            r is Some ==> r->Some_0@ == b@,
    {
        if Self::is_canonical(b) {
            Some(Scalar { bytes: *b })
        } else {
            None
        }
    }

    /// The canonical encoding.
    pub fn to_bytes(&self) -> (r: [u8; 32])
        ensures
            r@ == self@,
            is_canonical_scalar(r@),
    {
        proof {
            use_type_invariant(self);
        }
        self.bytes
    }

    /// The zero scalar.
    pub fn zero() -> (r: Scalar)
        ensures
            le_value(r@) == 0,
    {
        let bytes = [0u8; 32];
        proof {
            lemma_le_value_zero(bytes@);
        }
        Scalar { bytes }
    }

    /// Relies on `BlsScalar::hash_to_scalar`: BLAKE2b-512 of the input, reduced
    /// modulo the field order.
    #[verifier::external_body]
    pub(crate) fn hash(input: &[u8]) -> (r: Scalar)
        ensures
            r@ == hash_to_scalar_of(input@),
    {
        Scalar { bytes: BlsScalar::hash_to_scalar(input).to_bytes() }
    }
}

/// Relies on `Zeroize` for byte arrays: each byte is overwritten with zero by
/// a volatile write that the compiler does not remove.
#[verifier::external_body]
fn zeroize_bytes(b: &mut [u8; 32])
    ensures
        is_all_zero(final(b)@),
    opens_invariants none
    no_unwind
{
    b.zeroize();
}

impl Scalar {
    /// Overwrites the scalar with zero.
    pub(crate) fn zeroize(&mut self)
        ensures
            le_value(final(self)@) == 0,
        opens_invariants none
        no_unwind
    {
        proof {
            lemma_zero_bytes_denote_zero();
        }
        zeroize_bytes(&mut self.bytes);
    }
}

impl PartialEq for Scalar {
    fn eq(&self, other: &Scalar) -> (r: bool) {
        bytes_equal(&self.bytes, &other.bytes)
    }
}

impl vstd::std_specs::cmp::PartialEqSpecImpl for Scalar {
    open spec fn obeys_eq_spec() -> bool {
        true
    }

    open spec fn eq_spec(&self, other: &Scalar) -> bool {
        self@ == other@
    }
}

/// Whether every byte is zero.
pub open spec fn is_all_zero(b: Seq<u8>) -> bool {
    forall|i: int| 0 <= i < b.len() ==> b[i] == 0
}

/// Strings of zero bytes denote zero.
proof fn lemma_zero_bytes_denote_zero()
    ensures
        forall|b: Seq<u8>| #[trigger] is_all_zero(b) ==> le_value(b) == 0,
{
    assert forall|b: Seq<u8>| #[trigger] is_all_zero(b) implies le_value(b) == 0 by {
        lemma_le_value_zero(b);
    }
}

/// A string of zero bytes denotes zero.
proof fn lemma_le_value_zero(b: Seq<u8>)
    requires
        is_all_zero(b),
    ensures
        le_value(b) == 0,
    decreases b.len(),
{
    if b.len() > 0 {
        lemma_le_value_zero(b.subrange(1, b.len() as int));
    }
}

} // verus!
