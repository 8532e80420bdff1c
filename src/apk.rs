use vstd::prelude::*;

use core::cmp::Ordering;

use crate::bytes::lex_cmp;

use crate::error::{BytesError, Error};
use crate::g2::{g2_raw, g2_valid, g2_well_formed};
use crate::public::{
    add_weighted, all_valid, g2_decode_spec, key_views, keys_valid, public_key_of, verify_points,
    verify_spec, weighted_key, weighted_sum, PublicKey,
};
use crate::secret::SecretKey;
use crate::signature::Signature;

verus! {

/// The outcome of adding the keys `pks` to an accumulator that holds `acc`.
pub open spec fn accumulate_spec(acc: Seq<u8>, pks: Seq<Seq<u8>>) -> Result<Seq<u8>, Error> {
    if !g2_valid(acc) || !all_valid(pks) {
        Err(Error::InvalidPoint)
    } else {
        Ok(weighted_sum(acc, pks))
    }
}

/// An aggregated public key that grows in place: it starts from the weighted
/// contribution of one key, and `aggregate` adds the contributions of more.
#[derive(Clone, Copy, Debug, Eq, Ord, Hash)]
pub struct APK(pub(crate) PublicKey);

impl View for APK {
    type V = Seq<u8>;

    open(crate) spec fn view(&self) -> Seq<u8> {
        self.0@
    }
}

impl From<&PublicKey> for APK {
    /// The accumulator that holds the weighted contribution of `pk`.
    fn from(pk: &PublicKey) -> (r: APK)
        ensures
            r@ == weighted_key(pk@),
    {
        APK(PublicKey(pk.pk_t()))
    }
}

impl vstd::std_specs::convert::FromSpecImpl<&PublicKey> for APK {
    open spec fn obeys_from_spec() -> bool {
        false
    }

    open spec fn from_spec(pk: &PublicKey) -> APK {
        arbitrary()
    }
}

impl From<&SecretKey> for APK {
    /// The accumulator that holds the weighted contribution of the public key
    /// of `sk`.
    fn from(sk: &SecretKey) -> (r: APK)
        ensures
            r@ == weighted_key(public_key_of(sk@)),
    {
        let pk = PublicKey::from(sk);
        APK::from(&pk)
    }
}

impl vstd::std_specs::convert::FromSpecImpl<&SecretKey> for APK {
    open spec fn obeys_from_spec() -> bool {
        false
    }

    open spec fn from_spec(sk: &SecretKey) -> APK {
        arbitrary()
    }
}

impl APK {
    /// Size of the checked encoding.
    pub const SIZE: usize = 96;

    /// Adds the weighted contributions of `pks`. Fails, leaving the key as it
    /// was, when the key so far or one of `pks` is not valid.
    pub fn aggregate(&mut self, pks: &[PublicKey]) -> (r: Result<(), Error>)
        ensures
            r is Ok ==> accumulate_spec(old(self)@, key_views(pks@)) == Ok::<Seq<u8>, Error>(
                final(self)@,
            ),
            r is Err ==> accumulate_spec(old(self)@, key_views(pks@)) == Err::<Seq<u8>, Error>(
                r->Err_0,
            ) && *final(self) == *old(self),
    {
        let self_valid = self.0.is_valid();
        let pks_valid = keys_valid(pks);
        if !(self_valid && pks_valid) {
            return Err(Error::InvalidPoint);
        }
        let sum = add_weighted(self.0.0, pks, 0);
        assert(key_views(pks@).subrange(0, pks@.len() as int) =~= key_views(pks@));
        self.0 = PublicKey(sum);
        Ok(())
    }

    /// Verify a signature of `msg`. All signers must have signed the same
    /// message.
    pub fn verify(&self, sig: &Signature, msg: &[u8]) -> (r: Result<(), Error>)
        ensures
            r == verify_spec(self@, sig@, msg@),
    {
        verify_points(&self.0.0, &sig.0, msg)
    }

    /// The raw form, for trusted data where speed matters.
    pub fn to_raw_bytes(&self) -> (r: [u8; 193])
        ensures
            r@ == g2_raw(self@),
    {
        self.0.to_raw_bytes()
    }

    /// The checked (compressed) encoding.
    pub fn to_bytes(&self) -> (r: [u8; 96])
        ensures
            r@ == self@,
            g2_well_formed(r@),
    {
        self.0.to_bytes()
    }

    /// Decodes the checked encoding.
    pub fn from_bytes(bytes: &[u8; 96]) -> (r: Result<APK, BytesError>)
        ensures
            r is Ok ==> g2_decode_spec(bytes@) == Ok::<Seq<u8>, BytesError>(r->Ok_0@),
            r is Err ==> g2_decode_spec(bytes@) == Err::<Seq<u8>, BytesError>(r->Err_0),
    {
        match PublicKey::from_bytes(bytes) {
            Ok(pk) => Ok(APK(pk)),
            Err(e) => Err(e),
        }
    }
}

impl PartialEq for APK {
    fn eq(&self, other: &APK) -> (r: bool) {
        self.0.0 == other.0.0
    }
}

impl vstd::std_specs::cmp::PartialEqSpecImpl for APK {
    open spec fn obeys_eq_spec() -> bool {
        true
    }

    open spec fn eq_spec(&self, other: &APK) -> bool {
        self@ == other@
    }
}

impl PartialOrd for APK {
    /// Orders by the checked encoding, byte after byte.
    fn partial_cmp(&self, other: &APK) -> (r: Option<Ordering>) {
        self.0.0.partial_cmp(&other.0.0)
    }
}

impl vstd::std_specs::cmp::PartialOrdSpecImpl for APK {
    open spec fn obeys_partial_cmp_spec() -> bool {
        true
    }

    open spec fn partial_cmp_spec(&self, other: &APK) -> Option<Ordering> {
        Some(lex_cmp(self@, other@))
    }
}

} // verus!
