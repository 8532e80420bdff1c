use vstd::prelude::*;

use core::cmp::Ordering;

use dusk_bls12_381::{multi_miller_loop, BlsScalar, G1Affine, G1Projective, G2Affine, G2Prepared, Gt};

use crate::bytes::{bytes_compare, bytes_equal, lex_cmp};
use crate::g2::{is_infinity_encoding, G2Point};
use crate::scalar::{le_value, Scalar};

verus! {

/// Whether `G1Affine::from_compressed_unchecked` recovers a point from the bytes.
pub uninterp spec fn g1_decodes(b: Seq<u8>) -> bool;

/// Whether the point that the bytes encode lies in the prime-order subgroup.
pub uninterp spec fn g1_torsion_free(b: Seq<u8>) -> bool;

/// Whether the point that the bytes encode satisfies the curve equation.
pub uninterp spec fn g1_on_curve(b: Seq<u8>) -> bool;

/// The encoding of the sum of the points that `a` and `b` encode.
pub uninterp spec fn g1_sum(a: Seq<u8>, b: Seq<u8>) -> Seq<u8>;

/// The encoding of the point that `p` encodes, multiplied by the scalar `s` encodes.
pub uninterp spec fn g1_scaled(p: Seq<u8>, s: Seq<u8>) -> Seq<u8>;

/// The encoding of the fixed generator of G1 multiplied by the scalar `s` encodes.
pub uninterp spec fn g1_generator_scaled(s: Seq<u8>) -> Seq<u8>;

/// The encoding of the negation of the point that `p` encodes.
pub uninterp spec fn g1_negated(p: Seq<u8>) -> Seq<u8>;

/// Whether `e(a, g2) · e(b, q)` is the identity of the target group, where `a`
/// and `b` encode G1 points, `q` a G2 point, and `g2` is the fixed generator of G2.
pub uninterp spec fn pairing_product_is_one(a: Seq<u8>, b: Seq<u8>, q: Seq<u8>) -> bool;

/// What every G1 point the library holds satisfies: the bytes decode to a
/// point on the curve and in the prime-order subgroup.
pub open spec fn g1_well_formed(b: Seq<u8>) -> bool {
    g1_decodes(b) && g1_on_curve(b) && g1_torsion_free(b)
}

/// A G1 point is valid when it lies in the prime-order subgroup, is on the
/// curve, and is not the identity.
pub open spec fn g1_valid(b: Seq<u8>) -> bool {
    g1_torsion_free(b) && g1_on_curve(b) && !is_infinity_encoding(b)
}

/// A point of the prime-order subgroup of G1, held as its canonical 48-byte
/// compressed encoding.
#[derive(Clone, Copy, Debug, Eq, Ord, Hash)]
pub struct G1Point {
    pub(crate) bytes: [u8; 48],
}

impl View for G1Point {
    type V = Seq<u8>;

    open(crate) spec fn view(&self) -> Seq<u8> {
        self.bytes@
    }
}

impl G1Point {
    /// Size of the compressed encoding.
    pub const SIZE: usize = 48;

    #[verifier::type_invariant]
    spec fn inv(self) -> bool {
        g1_well_formed(self.bytes@)
    }

    /// Relies on `G1Affine::from_compressed`: it accepts the bytes exactly when
    /// `from_compressed_unchecked` recovers a point from them and that point is
    /// torsion free. A point recovered that way is on the curve: its `y` is a
    /// square root of `x³ + b`, or it is the identity.
    #[verifier::external_body]
    fn decodes_checked(b: &[u8; 48]) -> (r: bool)
        ensures
            r == (g1_decodes(b@) && g1_torsion_free(b@)),
            r ==> g1_on_curve(b@),
    {
        bool::from(G1Affine::from_compressed(b).is_some())
    }

    /// Decodes a compressed encoding, checking that it denotes a point of the
    /// prime-order subgroup.
    pub fn from_bytes(b: &[u8; 48]) -> (r: Option<G1Point>)
        ensures
            r is Some <==> g1_decodes(b@) && g1_torsion_free(b@),
            r is Some ==> r->Some_0@ == b@,
    {
        if Self::decodes_checked(b) {
            Some(G1Point { bytes: *b })
        } else {
            None
        }
    }

    /// The compressed encoding.
    pub fn to_bytes(&self) -> (r: [u8; 48])
        ensures
            r@ == self@,
            g1_well_formed(r@),
    {
        proof {
            use_type_invariant(self);
        }
        self.bytes
    }

    /// Relies on `G1Affine::is_torsion_free`.
    #[verifier::external_body]
    pub(crate) fn torsion_free(&self) -> (r: bool)
        ensures
            r == g1_torsion_free(self@),
    {
        bool::from(G1Affine::from_compressed_unchecked(&self.bytes).unwrap().is_torsion_free())
    }

    /// Relies on `G1Affine::is_on_curve`.
    #[verifier::external_body]
    pub(crate) fn on_curve(&self) -> (r: bool)
        ensures
            r == g1_on_curve(self@),
    {
        bool::from(G1Affine::from_compressed_unchecked(&self.bytes).unwrap().is_on_curve())
    }

    /// Relies on `G1Affine::is_identity`: a point recovered by
    /// `from_compressed_unchecked` is the identity exactly when its encoding
    /// carries the infinity flag.
    #[verifier::external_body]
    pub(crate) fn identity(&self) -> (r: bool)
        ensures
            r == is_infinity_encoding(self@),
    {
        bool::from(G1Affine::from_compressed_unchecked(&self.bytes).unwrap().is_identity())
    }

    /// Whether the point is in the prime-order subgroup, on the curve, and not
    /// the identity.
    pub fn is_valid(&self) -> (r: bool)
        ensures
            r == g1_valid(self@),
    {
        self.torsion_free() && self.on_curve() && !self.identity()
    }

    /// Relies on point addition in `dusk_bls12_381` (`G1Affine + G1Projective`);
    /// the sum of two points of the prime-order subgroup stays in it.
    #[verifier::external_body]
    pub(crate) fn add(&self, other: &G1Point) -> (r: G1Point)
        ensures
            r@ == g1_sum(self@, other@),
    {
        let a = G1Affine::from_compressed_unchecked(&self.bytes).unwrap();
        let b = G1Affine::from_compressed_unchecked(&other.bytes).unwrap();
        G1Point { bytes: G1Affine::from(a + G1Projective::from(b)).to_compressed() }
    }

    /// Relies on scalar multiplication in `dusk_bls12_381` (`G1Affine * BlsScalar`):
    /// a multiple of a point of the prime-order subgroup stays in it, and the
    /// zero scalar gives the identity.
    #[verifier::external_body]
    pub(crate) fn mul(&self, s: &Scalar) -> (r: G1Point)
        ensures
            r@ == g1_scaled(self@, s@),
            le_value(s@) == 0 ==> is_infinity_encoding(r@),
    {
        let p = G1Affine::from_compressed_unchecked(&self.bytes).unwrap();
        let s = BlsScalar::from_bytes(&s.bytes).unwrap();
        G1Point { bytes: G1Affine::from(p * s).to_compressed() }
    }

    /// Relies on `G1Affine::generator() * BlsScalar`; the generator lies in the
    /// prime-order subgroup.
    #[verifier::external_body]
    pub(crate) fn generator_mul(s: &Scalar) -> (r: G1Point)
        ensures
            r@ == g1_generator_scaled(s@),
    {
        let s = BlsScalar::from_bytes(&s.bytes).unwrap();
        G1Point { bytes: G1Affine::from(G1Affine::generator() * s).to_compressed() }
    }

    /// Relies on `Neg` for `G1Affine`; the negation of a point of the
    /// prime-order subgroup stays in it.
    #[verifier::external_body]
    pub(crate) fn neg(&self) -> (r: G1Point)
        ensures
            r@ == g1_negated(self@),
    {
        let p = G1Affine::from_compressed_unchecked(&self.bytes).unwrap();
        G1Point { bytes: (-p).to_compressed() }
    }
}

/// Relies on `dusk_bls12_381::multi_miller_loop` over the two pairs
/// `(a, g2)` and `(b, q)`, followed by `MillerLoopResult::final_exponentiation`
/// and a comparison with `Gt::identity()`.
#[verifier::external_body]
pub(crate) fn pairing_check(a: &G1Point, b: &G1Point, q: &G2Point) -> (r: bool)
    ensures
        r == pairing_product_is_one(a@, b@, q@),
{
    let a = G1Affine::from_compressed_unchecked(&a.bytes).unwrap();
    let b = G1Affine::from_compressed_unchecked(&b.bytes).unwrap();
    let q = G2Affine::from_compressed_unchecked(&q.bytes).unwrap();
    let g2 = G2Prepared::from(G2Affine::generator());
    multi_miller_loop(&[(&a, &g2), (&b, &G2Prepared::from(q))]).final_exponentiation()
        == Gt::identity()
}

impl PartialEq for G1Point {
    fn eq(&self, other: &G1Point) -> (r: bool) {
        bytes_equal(&self.bytes, &other.bytes)
    }
}

impl vstd::std_specs::cmp::PartialEqSpecImpl for G1Point {
    open spec fn obeys_eq_spec() -> bool {
        true
    }

    open spec fn eq_spec(&self, other: &G1Point) -> bool {
        self@ == other@
    }
}

impl PartialOrd for G1Point {
    fn partial_cmp(&self, other: &G1Point) -> (r: Option<Ordering>) {
        Some(bytes_compare(&self.bytes, &other.bytes))
    }
}

impl vstd::std_specs::cmp::PartialOrdSpecImpl for G1Point {
    open spec fn obeys_partial_cmp_spec() -> bool {
        true
    }

    open spec fn partial_cmp_spec(&self, other: &G1Point) -> Option<Ordering> {
        Some(lex_cmp(self@, other@))
    }
}

} // verus!
