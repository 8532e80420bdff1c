use vstd::prelude::*;

use core::cmp::Ordering;

use crate::bytes::lex_cmp;

use crate::error::{BytesError, Error};
use crate::g1::{g1_negated, g1_valid, pairing_check, pairing_product_is_one, G1Point};
use crate::g2::{
    g2_decodes, g2_generator_scaled, g2_raw, g2_scaled, g2_sum, g2_torsion_free, g2_valid,
    g2_well_formed, is_infinity_encoding, G2Point,
};
use crate::hash::{h0, h0_spec, h1, h1_spec};
use crate::scalar::le_value;
use crate::secret::SecretKey;
use crate::signature::{MultisigSignature, Signature};

verus! {

/// The outcome of verifying the signature `sig` of `msg` against the key `key`:
/// both points must be valid, and then `e(sig, g2) · e(−H₀(msg), key)` must be
/// the identity of the target group.
pub open spec fn verify_spec(key: Seq<u8>, sig: Seq<u8>, msg: Seq<u8>) -> Result<(), Error> {
    if !g2_valid(key) || !g1_valid(sig) {
        Err(Error::InvalidPoint)
    } else if pairing_product_is_one(sig, g1_negated(h0_spec(msg)), key) {
        Ok(())
    } else {
        Err(Error::InvalidSignature)
    }
}

/// What the checked decoding of a G2 encoding gives.
pub open spec fn g2_decode_spec(b: Seq<u8>) -> Result<Seq<u8>, BytesError> {
    if g2_decodes(b) && g2_torsion_free(b) {
        Ok(b)
    } else {
        Err(BytesError::InvalidData)
    }
}

/// The public key of the secret scalar `sk`: the generator of G2 times `sk`.
pub open spec fn public_key_of(sk: Seq<u8>) -> Seq<u8> {
    g2_generator_scaled(sk)
}

/// The contribution of a key to an aggregate: `pk · H₁(pk)`.
pub open spec fn weighted_key(pk: Seq<u8>) -> Seq<u8> {
    g2_scaled(pk, h1_spec(pk))
}

/// `acc` plus the weighted contribution of each of `pks`, from the first to the last.
pub open spec fn weighted_sum(acc: Seq<u8>, pks: Seq<Seq<u8>>) -> Seq<u8>
    decreases pks.len(),
{
    if pks.len() == 0 {
        acc
    } else {
        g2_sum(weighted_sum(acc, pks.drop_last()), weighted_key(pks.last()))
    }
}

/// Whether every key of the list is valid.
pub open spec fn all_valid(pks: Seq<Seq<u8>>) -> bool {
    forall|i: int| 0 <= i < pks.len() ==> #[trigger] g2_valid(pks[i])
}

/// The encodings of a list of public keys.
pub open spec fn key_views(pks: Seq<PublicKey>) -> Seq<Seq<u8>> {
    pks.map_values(|p: PublicKey| p@)
}

/// The outcome of aggregating a list of public keys in one call.
pub open spec fn aggregate_spec(pks: Seq<Seq<u8>>) -> Result<Seq<u8>, Error> {
    if pks.len() == 0 {
        Err(Error::NoKeysProvided)
    } else if !all_valid(pks) {
        Err(Error::InvalidPoint)
    } else {
        Ok(weighted_sum(weighted_key(pks[0]), pks.drop_first()))
    }
}

/// Verifies the signature `sig` of `msg` against `key`.
pub(crate) fn verify_points(key: &G2Point, sig: &G1Point, msg: &[u8]) -> (r: Result<(), Error>)
    ensures
        r == verify_spec(key@, sig@, msg@),
{
    if !key.is_valid() || !sig.is_valid() {
        return Err(Error::InvalidPoint);
    }
    let h = h0(msg);
    if pairing_check(sig, &h.neg(), key) {
        Ok(())
    } else {
        Err(Error::InvalidSignature)
    }
}

/// Whether every key of the list is valid. All keys are checked, whatever the
/// outcome for the earlier ones.
pub(crate) fn keys_valid(pks: &[PublicKey]) -> (r: bool)
    ensures
        r == all_valid(key_views(pks@)),
{
    let ghost views = key_views(pks@);
    let mut valid = true;
    let mut i: usize = 0;
    while i < pks.len()
        invariant
            i <= pks@.len(),
            views == key_views(pks@),
            valid == all_valid(views.subrange(0, i as int)),
        decreases pks@.len() - i,
    {
        let v = pks[i].is_valid();
        assert(views.subrange(0, i + 1).drop_last() =~= views.subrange(0, i as int));
        assert(all_valid(views.subrange(0, i + 1)) == (all_valid(views.subrange(0, i as int))
            && g2_valid(views[i as int]))) by {
            let s = views.subrange(0, i + 1);
            if all_valid(s) {
                assert(g2_valid(s[i as int]));
                assert forall|j: int| 0 <= j < i implies #[trigger] g2_valid(
                    views.subrange(0, i as int)[j],
                ) by {
                    assert(g2_valid(s[j]));
                }
            }
        }
        valid = valid && v;
        i = i + 1;
    }
    assert(views.subrange(0, i as int) =~= views);
    valid
}

/// Adds to `acc` the weighted contribution of each key of `pks` from `start` on.
pub(crate) fn add_weighted(acc: G2Point, pks: &[PublicKey], start: usize) -> (r: G2Point)
    requires
        start <= pks@.len(),
    ensures
        r@ == weighted_sum(acc@, key_views(pks@).subrange(start as int, pks@.len() as int)),
{
    let ghost views = key_views(pks@).subrange(start as int, pks@.len() as int);
    let mut sum = acc;
    let mut i: usize = start;
    assert(views.subrange(0, 0) =~= Seq::<Seq<u8>>::empty());
    while i < pks.len()
        invariant
            start <= i <= pks@.len(),
            views == key_views(pks@).subrange(start as int, pks@.len() as int),
            sum@ == weighted_sum(acc@, views.subrange(0, i - start)),
        decreases pks@.len() - i,
    {
        assert(views.subrange(0, i + 1 - start).drop_last() =~= views.subrange(0, i - start));
        let t = pks[i].pk_t();
        sum = sum.add(&t);
        i = i + 1;
    }
    assert(views.subrange(0, i - start) =~= views);
    sum
}

/// A BLS public key: a point of G2, the generator multiplied by the secret key.
#[derive(Clone, Copy, Debug, Eq, Ord, Hash)]
pub struct PublicKey(pub(crate) G2Point);

impl View for PublicKey {
    type V = Seq<u8>;

    open(crate) spec fn view(&self) -> Seq<u8> {
        self.0@
    }
}

impl From<&SecretKey> for PublicKey {
    /// `pk = g₂ · sk`. A zero secret key gives the identity.
    fn from(sk: &SecretKey) -> (r: PublicKey)
        ensures
            r@ == public_key_of(sk@),
            le_value(sk@) == 0 ==> is_infinity_encoding(r@),
    {
        PublicKey(G2Point::generator_mul(&sk.0))
    }
}

impl vstd::std_specs::convert::FromSpecImpl<&SecretKey> for PublicKey {
    open spec fn obeys_from_spec() -> bool {
        false
    }

    open spec fn from_spec(sk: &SecretKey) -> PublicKey {
        arbitrary()
    }
}

impl PublicKey {
    /// Size of the checked encoding.
    pub const SIZE: usize = 96;

    /// Verify a signature of `msg`.
    pub fn verify(&self, sig: &Signature, msg: &[u8]) -> (r: Result<(), Error>)
        ensures
            r == verify_spec(self@, sig@, msg@),
    {
        verify_points(&self.0, &sig.0, msg)
    }

    /// The key weighted by its own hash, `pk · H₁(pk)`: its contribution to an
    /// aggregate key.
    pub fn pk_t(&self) -> (r: G2Point)
        ensures
            r@ == weighted_key(self@),
    {
        let t = h1(self);
        self.0.mul(&t)
    }

    /// The raw form, for trusted data where speed matters; `to_bytes` is the
    /// checked form.
    pub fn to_raw_bytes(&self) -> (r: [u8; 193])
        ensures
            r@ == g2_raw(self@),
    {
        self.0.raw_bytes()
    }

    /// Whether the point is torsion free, on the curve, and not the identity.
    pub fn is_valid(&self) -> (r: bool)
        ensures
            r == g2_valid(self@),
    {
        self.0.is_valid()
    }

    /// The checked (compressed) encoding.
    pub fn to_bytes(&self) -> (r: [u8; 96])
        ensures
            r@ == self@,
            g2_well_formed(r@),
    {
        self.0.to_bytes()
    }

    /// Decodes the checked encoding.
    pub fn from_bytes(bytes: &[u8; 96]) -> (r: Result<PublicKey, BytesError>)
        ensures
            r is Ok ==> g2_decode_spec(bytes@) == Ok::<Seq<u8>, BytesError>(r->Ok_0@),
            r is Err ==> g2_decode_spec(bytes@) == Err::<Seq<u8>, BytesError>(r->Err_0),
    {
        match G2Point::from_bytes(bytes) {
            Some(p) => Ok(PublicKey(p)),
            None => Err(BytesError::InvalidData),
        }
    }
}

/// A public key aggregated from several, in a rogue-key resistant way: each
/// key is weighted by its own hash before the sum.
#[derive(Clone, Copy, Debug, Eq, Ord, Hash)]
pub struct MultisigPublicKey(pub(crate) G2Point);

impl View for MultisigPublicKey {
    type V = Seq<u8>;

    open(crate) spec fn view(&self) -> Seq<u8> {
        self.0@
    }
}

impl MultisigPublicKey {
    /// Size of the checked encoding.
    pub const SIZE: usize = 96;

    /// Aggregate a set of public keys. Fails on an empty list, and on a list
    /// that holds an invalid key.
    pub fn aggregate(pks: &[PublicKey]) -> (r: Result<MultisigPublicKey, Error>)
        ensures
            r is Ok ==> aggregate_spec(key_views(pks@)) == Ok::<Seq<u8>, Error>(r->Ok_0@),
            r is Err ==> aggregate_spec(key_views(pks@)) == Err::<Seq<u8>, Error>(r->Err_0),
    {
        if pks.len() == 0 {
            return Err(Error::NoKeysProvided);
        }
        if !keys_valid(pks) {
            return Err(Error::InvalidPoint);
        }
        let first = pks[0].pk_t();
        let sum = add_weighted(first, pks, 1);
        assert(key_views(pks@).subrange(1, pks@.len() as int) =~= key_views(pks@).drop_first());
        Ok(MultisigPublicKey(sum))
    }

    /// Verify an aggregate signature of `msg`. All signers must have signed
    /// the same message.
    pub fn verify(&self, sig: &MultisigSignature, msg: &[u8]) -> (r: Result<(), Error>)
        ensures
            r == verify_spec(self@, sig@, msg@),
    {
        verify_points(&self.0, &sig.0, msg)
    }

    /// The raw form, for trusted data where speed matters.
    pub fn to_raw_bytes(&self) -> (r: [u8; 193])
        ensures
            r@ == g2_raw(self@),
    {
        self.0.raw_bytes()
    }

    /// Whether the point is torsion free, on the curve, and not the identity.
    pub fn is_valid(&self) -> (r: bool)
        ensures
            r == g2_valid(self@),
    {
        self.0.is_valid()
    }

    /// The checked (compressed) encoding.
    pub fn to_bytes(&self) -> (r: [u8; 96])
        ensures
            r@ == self@,
            g2_well_formed(r@),
    {
        self.0.to_bytes()
    }

    /// Decodes the checked encoding.
    pub fn from_bytes(bytes: &[u8; 96]) -> (r: Result<MultisigPublicKey, BytesError>)
        ensures
            r is Ok ==> g2_decode_spec(bytes@) == Ok::<Seq<u8>, BytesError>(r->Ok_0@),
            r is Err ==> g2_decode_spec(bytes@) == Err::<Seq<u8>, BytesError>(r->Err_0),
    {
        match G2Point::from_bytes(bytes) {
            Some(p) => Ok(MultisigPublicKey(p)),
            None => Err(BytesError::InvalidData),
        }
    }
}

impl PartialEq for PublicKey {
    fn eq(&self, other: &PublicKey) -> (r: bool) {
        self.0 == other.0
    }
}

impl vstd::std_specs::cmp::PartialEqSpecImpl for PublicKey {
    open spec fn obeys_eq_spec() -> bool {
        true
    }

    open spec fn eq_spec(&self, other: &PublicKey) -> bool {
        self@ == other@
    }
}

impl PartialOrd for PublicKey {
    /// Orders by the checked encoding, byte after byte.
    fn partial_cmp(&self, other: &PublicKey) -> (r: Option<Ordering>) {
        self.0.partial_cmp(&other.0)
    }
}

impl vstd::std_specs::cmp::PartialOrdSpecImpl for PublicKey {
    open spec fn obeys_partial_cmp_spec() -> bool {
        true
    }

    open spec fn partial_cmp_spec(&self, other: &PublicKey) -> Option<Ordering> {
        Some(lex_cmp(self@, other@))
    }
}

impl PartialEq for MultisigPublicKey {
    fn eq(&self, other: &MultisigPublicKey) -> (r: bool) {
        self.0 == other.0
    }
}

impl vstd::std_specs::cmp::PartialEqSpecImpl for MultisigPublicKey {
    open spec fn obeys_eq_spec() -> bool {
        true
    }

    open spec fn eq_spec(&self, other: &MultisigPublicKey) -> bool {
        self@ == other@
    }
}

impl PartialOrd for MultisigPublicKey {
    /// Orders by the checked encoding, byte after byte.
    fn partial_cmp(&self, other: &MultisigPublicKey) -> (r: Option<Ordering>) {
        self.0.partial_cmp(&other.0)
    }
}

impl vstd::std_specs::cmp::PartialOrdSpecImpl for MultisigPublicKey {
    open spec fn obeys_partial_cmp_spec() -> bool {
        true
    }

    open spec fn partial_cmp_spec(&self, other: &MultisigPublicKey) -> Option<Ordering> {
        Some(lex_cmp(self@, other@))
    }
}

} // verus!
