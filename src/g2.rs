use vstd::prelude::*;

use core::cmp::Ordering;

use dusk_bls12_381::{BlsScalar, G2Affine, G2Projective};

use crate::bytes::{bytes_compare, bytes_equal, lex_cmp};
use crate::scalar::{le_value, Scalar};

verus! {

/// Whether compressed bytes carry the infinity flag: the second most significant
/// bit of the first byte. Of bytes that decode, these are the encodings of the
/// identity.
pub open spec fn is_infinity_encoding(b: Seq<u8>) -> bool {
    b.len() > 0 && b[0] & 0x40u8 != 0u8
}

/// Whether `G2Affine::from_compressed_unchecked` recovers a point from the bytes.
pub uninterp spec fn g2_decodes(b: Seq<u8>) -> bool;

/// Whether the point that the bytes encode lies in the prime-order subgroup.
pub uninterp spec fn g2_torsion_free(b: Seq<u8>) -> bool;

/// Whether the point that the bytes encode satisfies the curve equation.
pub uninterp spec fn g2_on_curve(b: Seq<u8>) -> bool;

/// The encoding of the sum of the points that `a` and `b` encode.
pub uninterp spec fn g2_sum(a: Seq<u8>, b: Seq<u8>) -> Seq<u8>;

/// The encoding of the point that `p` encodes, multiplied by the scalar `s` encodes.
pub uninterp spec fn g2_scaled(p: Seq<u8>, s: Seq<u8>) -> Seq<u8>;

/// The encoding of the fixed generator of G2 multiplied by the scalar `s` encodes.
pub uninterp spec fn g2_generator_scaled(s: Seq<u8>) -> Seq<u8>;

/// The raw (uncompressed, unchecked) form of the point that `p` encodes.
pub uninterp spec fn g2_raw(p: Seq<u8>) -> Seq<u8>;

/// What every G2 point the library holds satisfies: the bytes decode to a
/// point on the curve and in the prime-order subgroup.
pub open spec fn g2_well_formed(b: Seq<u8>) -> bool {
    g2_decodes(b) && g2_on_curve(b) && g2_torsion_free(b)
}

/// A G2 point is valid when it lies in the prime-order subgroup, is on the
/// curve, and is not the identity.
pub open spec fn g2_valid(b: Seq<u8>) -> bool {
    g2_torsion_free(b) && g2_on_curve(b) && !is_infinity_encoding(b)
}

/// A point of the prime-order subgroup of G2, held as its canonical 96-byte
/// compressed encoding.
#[derive(Clone, Copy, Debug, Eq, Ord, Hash)]
pub struct G2Point {
    pub(crate) bytes: [u8; 96],
}

impl View for G2Point {
    type V = Seq<u8>;

    open(crate) spec fn view(&self) -> Seq<u8> {
        self.bytes@
    }
}

impl G2Point {
    /// Size of the compressed encoding.
    pub const SIZE: usize = 96;

    /// Size of the raw encoding.
    pub const RAW_SIZE: usize = 193;

    #[verifier::type_invariant]
    spec fn inv(self) -> bool {
        g2_well_formed(self.bytes@)
    }

    /// Relies on `G2Affine::from_compressed`: it accepts the bytes exactly when
    /// `from_compressed_unchecked` recovers a point from them and that point is
    /// torsion free. A point recovered that way is on the curve: its `y` is a
    /// square root of `x³ + b`, or it is the identity.
    #[verifier::external_body]
    fn decodes_checked(b: &[u8; 96]) -> (r: bool)
        ensures
            r == (g2_decodes(b@) && g2_torsion_free(b@)),
            r ==> g2_on_curve(b@),
    {
        bool::from(G2Affine::from_compressed(b).is_some())
    }

    /// Decodes a compressed encoding, checking that it denotes a point of the
    /// prime-order subgroup.
    pub fn from_bytes(b: &[u8; 96]) -> (r: Option<G2Point>)
        ensures
            r is Some <==> g2_decodes(b@) && g2_torsion_free(b@),
            r is Some ==> r->Some_0@ == b@,
    {
        if Self::decodes_checked(b) {
            Some(G2Point { bytes: *b })
        } else {
            None
        }
    }

    /// The compressed encoding.
    pub fn to_bytes(&self) -> (r: [u8; 96])
        ensures
            r@ == self@,
            g2_well_formed(r@),
    {
        proof {
            use_type_invariant(self);
        }
        self.bytes
    }

    /// Relies on `G2Affine::to_raw_bytes`: the coordinates in their internal
    /// representation followed by the infinity flag.
    #[verifier::external_body]
    pub(crate) fn raw_bytes(&self) -> (r: [u8; 193])
        ensures
            r@ == g2_raw(self@),
    {
        G2Affine::from_compressed_unchecked(&self.bytes).unwrap().to_raw_bytes()
    }

    /// Relies on `G2Affine::is_torsion_free`.
    #[verifier::external_body]
    pub(crate) fn torsion_free(&self) -> (r: bool)
        ensures
            r == g2_torsion_free(self@),
    {
        bool::from(G2Affine::from_compressed_unchecked(&self.bytes).unwrap().is_torsion_free())
    }

    /// Relies on `G2Affine::is_on_curve`.
    #[verifier::external_body]
    pub(crate) fn on_curve(&self) -> (r: bool)
        ensures
            r == g2_on_curve(self@),
    {
        bool::from(G2Affine::from_compressed_unchecked(&self.bytes).unwrap().is_on_curve())
    }

    /// Relies on `G2Affine::is_identity`: a point recovered by
    /// `from_compressed_unchecked` is the identity exactly when its encoding
    /// carries the infinity flag.
    #[verifier::external_body]
    pub(crate) fn identity(&self) -> (r: bool)
        ensures
            r == is_infinity_encoding(self@),
    {
        bool::from(G2Affine::from_compressed_unchecked(&self.bytes).unwrap().is_identity())
    }

    /// Whether the point is in the prime-order subgroup, on the curve, and not
    /// the identity.
    pub fn is_valid(&self) -> (r: bool)
        ensures
            r == g2_valid(self@),
    {
        self.torsion_free() && self.on_curve() && !self.identity()
    }

    /// Relies on point addition in `dusk_bls12_381` (`G2Affine + G2Projective`);
    /// the sum of two points of the prime-order subgroup stays in it.
    #[verifier::external_body]
    pub(crate) fn add(&self, other: &G2Point) -> (r: G2Point)
        ensures
            r@ == g2_sum(self@, other@),
    {
        let a = G2Affine::from_compressed_unchecked(&self.bytes).unwrap();
        let b = G2Affine::from_compressed_unchecked(&other.bytes).unwrap();
        G2Point { bytes: G2Affine::from(a + G2Projective::from(b)).to_compressed() }
    }

    /// Relies on scalar multiplication in `dusk_bls12_381` (`G2Affine * BlsScalar`):
    /// a multiple of a point of the prime-order subgroup stays in it, and the
    /// zero scalar gives the identity.
    #[verifier::external_body]
    pub(crate) fn mul(&self, s: &Scalar) -> (r: G2Point)
        ensures
            r@ == g2_scaled(self@, s@),
            le_value(s@) == 0 ==> is_infinity_encoding(r@),
    {
        let p = G2Affine::from_compressed_unchecked(&self.bytes).unwrap();
        let s = BlsScalar::from_bytes(&s.bytes).unwrap();
        G2Point { bytes: G2Affine::from(p * s).to_compressed() }
    }

    /// Relies on `G2Affine::generator() * BlsScalar`: the generator lies in the
    /// prime-order subgroup, and the zero scalar gives the identity.
    #[verifier::external_body]
    pub(crate) fn generator_mul(s: &Scalar) -> (r: G2Point)
        ensures
            r@ == g2_generator_scaled(s@),
            le_value(s@) == 0 ==> is_infinity_encoding(r@),
    {
        let s = BlsScalar::from_bytes(&s.bytes).unwrap();
        G2Point { bytes: G2Affine::from(G2Affine::generator() * s).to_compressed() }
    }
}

impl PartialEq for G2Point {
    fn eq(&self, other: &G2Point) -> (r: bool) {
        bytes_equal(&self.bytes, &other.bytes)
    }
}

impl vstd::std_specs::cmp::PartialEqSpecImpl for G2Point {
    open spec fn obeys_eq_spec() -> bool {
        true
    }

    open spec fn eq_spec(&self, other: &G2Point) -> bool {
        self@ == other@
    }
}

impl PartialOrd for G2Point {
    fn partial_cmp(&self, other: &G2Point) -> (r: Option<Ordering>) {
        Some(bytes_compare(&self.bytes, &other.bytes))
    }
}

impl vstd::std_specs::cmp::PartialOrdSpecImpl for G2Point {
    open spec fn obeys_partial_cmp_spec() -> bool {
        true
    }

    open spec fn partial_cmp_spec(&self, other: &G2Point) -> Option<Ordering> {
        Some(lex_cmp(self@, other@))
    }
}

} // verus!
