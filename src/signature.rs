use vstd::prelude::*;

use core::cmp::Ordering;

use crate::bytes::lex_cmp;

use crate::error::{BytesError, Error};
use crate::g1::{g1_decodes, g1_on_curve, g1_sum, g1_torsion_free, g1_valid, g1_well_formed, G1Point};
use crate::g2::is_infinity_encoding;

verus! {

/// The encoding of `acc` plus each of `pts` in turn, from the first to the last.
pub open spec fn g1_fold(acc: Seq<u8>, pts: Seq<Seq<u8>>) -> Seq<u8>
    decreases pts.len(),
{
    if pts.len() == 0 {
        acc
    } else {
        g1_sum(g1_fold(acc, pts.drop_last()), pts.last())
    }
}

/// The encodings of a list of signatures.
pub open spec fn signature_views(sigs: Seq<Signature>) -> Seq<Seq<u8>> {
    sigs.map_values(|s: Signature| s@)
}

/// The encodings of a list of multi-signatures.
pub open spec fn multisig_views(sigs: Seq<MultisigSignature>) -> Seq<Seq<u8>> {
    sigs.map_values(|s: MultisigSignature| s@)
}

/// What the checked decoding of a G1 encoding gives.
pub open spec fn g1_decode_spec(b: Seq<u8>) -> Result<Seq<u8>, BytesError> {
    if g1_decodes(b) && g1_torsion_free(b) {
        Ok(b)
    } else {
        Err(BytesError::InvalidData)
    }
}

/// A BLS signature, in the single-signature scheme.
#[derive(Clone, Copy, Debug, Eq, Ord, Hash)]
pub struct Signature(pub(crate) G1Point);

impl View for Signature {
    type V = Seq<u8>;

    open(crate) spec fn view(&self) -> Seq<u8> {
        self.0@
    }
}

impl Signature {
    /// Size of the checked encoding.
    pub const SIZE: usize = 48;

    /// Aggregate a set of signatures by adding up the points.
    pub fn aggregate(&self, sigs: &[Signature]) -> (r: Signature)
        ensures
            r@ == g1_fold(self@, signature_views(sigs@)),
    {
        let ghost views = signature_views(sigs@);
        let mut acc = self.0;
        let mut i: usize = 0;
        assert(views.subrange(0, 0) =~= Seq::<Seq<u8>>::empty());
        while i < sigs.len()
            invariant
                i <= sigs@.len(),
                views == signature_views(sigs@),
                acc@ == g1_fold(self@, views.subrange(0, i as int)),
            decreases sigs@.len() - i,
        {
            assert(views.subrange(0, i + 1).drop_last() =~= views.subrange(0, i as int));
            acc = acc.add(&sigs[i].0);
            i = i + 1;
        }
        assert(views.subrange(0, i as int) =~= views);
        Signature(acc)
    }

    /// Whether the point lies in the prime-order subgroup.
    pub fn is_torsion_free(&self) -> (r: bool)
        ensures
            r == g1_torsion_free(self@),
    {
        self.0.torsion_free()
    }

    /// Whether the point is on the curve.
    pub fn is_on_curve(&self) -> (r: bool)
        ensures
            r == g1_on_curve(self@),
    {
        self.0.on_curve()
    }

    /// Whether the point is the identity (the point at infinity).
    pub fn is_identity(&self) -> (r: bool)
        ensures
            r == is_infinity_encoding(self@),
    {
        self.0.identity()
    }

    /// Whether the point is torsion free, on the curve, and not the identity.
    pub fn is_valid(&self) -> (r: bool)
        ensures
            r == g1_valid(self@),
    {
        self.is_torsion_free() && self.is_on_curve() && !self.is_identity()
    }

    /// The checked (compressed) encoding.
    pub fn to_bytes(&self) -> (r: [u8; 48])
        ensures
            r@ == self@,
            g1_well_formed(r@),
    {
        self.0.to_bytes()
    }

    /// Decodes the checked encoding.
    pub fn from_bytes(bytes: &[u8; 48]) -> (r: Result<Signature, Error>)
        ensures
            r is Ok ==> g1_decode_spec(bytes@) == Ok::<Seq<u8>, BytesError>(r->Ok_0@),
            r is Err ==> g1_decode_spec(bytes@) is Err && r->Err_0 == Error::BytesError(
                g1_decode_spec(bytes@)->Err_0,
            ),
    {
        match G1Point::from_bytes(bytes) {
            Some(p) => Ok(Signature(p)),
            None => Err(Error::BytesError(BytesError::InvalidData)),
        }
    }
}

/// A BLS signature, in the multi-signature scheme.
#[derive(Clone, Copy, Debug, Eq, Ord, Hash)]
pub struct MultisigSignature(pub(crate) G1Point);

impl View for MultisigSignature {
    type V = Seq<u8>;

    open(crate) spec fn view(&self) -> Seq<u8> {
        self.0@
    }
}

impl MultisigSignature {
    /// Size of the checked encoding.
    pub const SIZE: usize = 48;

    /// Aggregate a set of multi-signatures by adding up the points.
    pub fn aggregate(&self, sigs: &[MultisigSignature]) -> (r: MultisigSignature)
        ensures
            r@ == g1_fold(self@, multisig_views(sigs@)),
    {
        let ghost views = multisig_views(sigs@);
        let mut acc = self.0;
        let mut i: usize = 0;
        assert(views.subrange(0, 0) =~= Seq::<Seq<u8>>::empty());
        while i < sigs.len()
            invariant
                i <= sigs@.len(),
                views == multisig_views(sigs@),
                acc@ == g1_fold(self@, views.subrange(0, i as int)),
            decreases sigs@.len() - i,
        {
            assert(views.subrange(0, i + 1).drop_last() =~= views.subrange(0, i as int));
            acc = acc.add(&sigs[i].0);
            i = i + 1;
        }
        assert(views.subrange(0, i as int) =~= views);
        MultisigSignature(acc)
    }

    /// Whether the point is torsion free, on the curve, and not the identity.
    pub fn is_valid(&self) -> (r: bool)
        ensures
            r == g1_valid(self@),
    {
        self.0.is_valid()
    }

    /// The checked (compressed) encoding.
    pub fn to_bytes(&self) -> (r: [u8; 48])
        ensures
            r@ == self@,
            g1_well_formed(r@),
    {
        self.0.to_bytes()
    }

    /// Decodes the checked encoding.
    pub fn from_bytes(bytes: &[u8; 48]) -> (r: Result<MultisigSignature, Error>)
        ensures
            r is Ok ==> g1_decode_spec(bytes@) == Ok::<Seq<u8>, BytesError>(r->Ok_0@),
            r is Err ==> g1_decode_spec(bytes@) is Err && r->Err_0 == Error::BytesError(
                g1_decode_spec(bytes@)->Err_0,
            ),
    {
        match G1Point::from_bytes(bytes) {
            Some(p) => Ok(MultisigSignature(p)),
            None => Err(Error::BytesError(BytesError::InvalidData)),
        }
    }
}

impl PartialEq for Signature {
    fn eq(&self, other: &Signature) -> (r: bool) {
        self.0 == other.0
    }
}

impl vstd::std_specs::cmp::PartialEqSpecImpl for Signature {
    open spec fn obeys_eq_spec() -> bool {
        true
    }

    open spec fn eq_spec(&self, other: &Signature) -> bool {
        self@ == other@
    }
}

impl PartialOrd for Signature {
    /// Orders by the checked encoding, byte after byte.
    fn partial_cmp(&self, other: &Signature) -> (r: Option<Ordering>) {
        self.0.partial_cmp(&other.0)
    }
}

impl vstd::std_specs::cmp::PartialOrdSpecImpl for Signature {
    open spec fn obeys_partial_cmp_spec() -> bool {
        true
    }

    open spec fn partial_cmp_spec(&self, other: &Signature) -> Option<Ordering> {
        Some(lex_cmp(self@, other@))
    }
}

impl PartialEq for MultisigSignature {
    fn eq(&self, other: &MultisigSignature) -> (r: bool) {
        self.0 == other.0
    }
}

impl vstd::std_specs::cmp::PartialEqSpecImpl for MultisigSignature {
    open spec fn obeys_eq_spec() -> bool {
        true
    }

    open spec fn eq_spec(&self, other: &MultisigSignature) -> bool {
        self@ == other@
    }
}

impl PartialOrd for MultisigSignature {
    /// Orders by the checked encoding, byte after byte.
    fn partial_cmp(&self, other: &MultisigSignature) -> (r: Option<Ordering>) {
        self.0.partial_cmp(&other.0)
    }
}

impl vstd::std_specs::cmp::PartialOrdSpecImpl for MultisigSignature {
    open spec fn obeys_partial_cmp_spec() -> bool {
        true
    }

    open spec fn partial_cmp_spec(&self, other: &MultisigSignature) -> Option<Ordering> {
        Some(lex_cmp(self@, other@))
    }
}

} // verus!
