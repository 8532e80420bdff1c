//! The text form of keys and signatures: base-58 of their checked encoding.
use vstd::prelude::*;

use crate::error::{BytesError, Error};
use crate::public::{g2_decode_spec, MultisigPublicKey, PublicKey};
use crate::secret::{scalar_decode_spec, SecretKey};
use crate::signature::{g1_decode_spec, MultisigSignature, Signature};

verus! {

/// The base-58 text of the bytes, in the Bitcoin alphabet.
pub uninterp spec fn base58_of(b: Seq<u8>) -> Seq<char>;

/// The bytes that a base-58 text denotes, or `None` where it holds a character
/// outside the alphabet.
pub uninterp spec fn base58_decoded(s: Seq<char>) -> Option<Seq<u8>>;

/// Relies on `bs58::encode(..).into_string()`.
#[verifier::external_body]
fn base58_encode(b: &[u8]) -> (r: String)
    ensures
        r@ == base58_of(b@),
{
    bs58::encode(b).into_string()
}

/// Relies on `bs58::decode(..).into_vec()`; a character outside the alphabet is
/// reported with its byte index.
#[verifier::external_body]
fn base58_decode(s: &str) -> (r: Result<Vec<u8>, BytesError>)
    ensures
        r is Ok <==> base58_decoded(s@) is Some,
        r is Ok ==> base58_decoded(s@) == Some(r->Ok_0@),
{
    match bs58::decode(s).into_vec() {
        Ok(v) => Ok(v),
        Err(bs58::decode::Error::InvalidCharacter { character, index }) => {
            Err(BytesError::InvalidChar { ch: character, index })
        },
        Err(_) => Err(BytesError::InvalidData),
    }
}

/// What decoding a text whose base-58 bytes are `b` gives, for a type whose
/// checked encoding has `size` bytes and whose checked decoding of `b` gives
/// `decoded`: a length error unless `b` has exactly `size` bytes.
pub open spec fn sized_decode_spec(
    b: Seq<u8>,
    size: usize,
    decoded: Result<Seq<u8>, BytesError>,
) -> Result<Seq<u8>, Error> {
    if b.len() != size {
        Err(Error::BytesError(BytesError::BadLength { found: b.len() as usize, expected: size }))
    } else {
        match decoded {
            Ok(v) => Ok(v),
            Err(e) => Err(Error::BytesError(e)),
        }
    }
}

/// The encoding of a decoded value, or the error.
pub open spec fn outcome_view<T: View<V = Seq<u8>>>(r: Result<T, Error>) -> Result<Seq<u8>, Error> {
    match r {
        Ok(v) => Ok(v@),
        Err(e) => Err(e),
    }
}

/// Decodes base-58 text into exactly `size` bytes.
fn decode_sized(s: &str, size: usize) -> (r: Result<Vec<u8>, Error>)
    ensures
        base58_decoded(s@) is None ==> r is Err && r->Err_0 is BytesError,
        base58_decoded(s@) is Some ==> {
            let b = base58_decoded(s@)->Some_0;
            &&& b.len() == size ==> r is Ok && r->Ok_0@ == b
            &&& b.len() != size ==> r == Err::<Vec<u8>, Error>(
                Error::BytesError(BytesError::BadLength { found: b.len() as usize, expected: size }),
            )
        },
{
    match base58_decode(s) {
        Ok(v) => {
            if v.len() == size {
                Ok(v)
            } else {
                Err(Error::BytesError(BytesError::BadLength { found: v.len(), expected: size }))
            }
        },
        Err(e) => Err(Error::BytesError(e)),
    }
}

/// Copies `src` into an array of its length.
fn copy_into<const N: usize>(dst: &mut [u8; N], src: &[u8])
    requires
        src@.len() == N,
    ensures
        final(dst)@ == src@,
{
    let mut i: usize = 0;
    while i < N
        invariant
            src@.len() == N,
            i <= N,
            dst@.len() == N,
            forall|j: int| 0 <= j < i ==> dst@[j] == src@[j],
        decreases N - i,
    {
        dst[i] = src[i];
        i = i + 1;
    }
    assert(dst@ =~= src@);
}

impl SecretKey {
    /// The text form: base-58 of the checked encoding.
    pub fn to_base58(&self) -> (r: String)
        ensures
            r@ == base58_of(self@),
    {
        let bytes = self.to_bytes();
        base58_encode(&bytes)
    }

    /// Decodes the text form. Fails on a character outside the base-58
    /// alphabet, on a decoded length other than 32 bytes, and where the
    /// checked decoding fails.
    pub fn from_base58(s: &str) -> (r: Result<SecretKey, Error>)
        ensures
            base58_decoded(s@) is None ==> r is Err && r->Err_0 is BytesError,
            base58_decoded(s@) is Some ==> {
                let b = base58_decoded(s@)->Some_0;
                outcome_view(r) == sized_decode_spec(b, 32, scalar_decode_spec(b))
            },
    {
        let v = match decode_sized(s, 32) {
            Ok(v) => v,
            Err(e) => return Err(e),
        };
        let mut bytes = [0u8; 32];
        copy_into(&mut bytes, v.as_slice());
        match SecretKey::from_bytes(&bytes) {
            Ok(v) => Ok(v),
            Err(e) => Err(Error::BytesError(e)),
        }
    }
}

impl PublicKey {
    /// The text form: base-58 of the checked encoding.
    pub fn to_base58(&self) -> (r: String)
        ensures
            r@ == base58_of(self@),
    {
        let bytes = self.to_bytes();
        base58_encode(&bytes)
    }

    /// Decodes the text form. Fails on a character outside the base-58
    /// alphabet, on a decoded length other than 96 bytes, and where the
    /// checked decoding fails.
    pub fn from_base58(s: &str) -> (r: Result<PublicKey, Error>)
        ensures
            base58_decoded(s@) is None ==> r is Err && r->Err_0 is BytesError,
            base58_decoded(s@) is Some ==> {
                let b = base58_decoded(s@)->Some_0;
                outcome_view(r) == sized_decode_spec(b, 96, g2_decode_spec(b))
            },
    {
        let v = match decode_sized(s, 96) {
            Ok(v) => v,
            Err(e) => return Err(e),
        };
        let mut bytes = [0u8; 96];
        copy_into(&mut bytes, v.as_slice());
        match PublicKey::from_bytes(&bytes) {
            Ok(v) => Ok(v),
            Err(e) => Err(Error::BytesError(e)),
        }
    }
}

impl MultisigPublicKey {
    /// The text form: base-58 of the checked encoding.
    pub fn to_base58(&self) -> (r: String)
        ensures
            r@ == base58_of(self@),
    {
        let bytes = self.to_bytes();
        base58_encode(&bytes)
    }

    /// Decodes the text form. Fails on a character outside the base-58
    /// alphabet, on a decoded length other than 96 bytes, and where the
    /// checked decoding fails.
    pub fn from_base58(s: &str) -> (r: Result<MultisigPublicKey, Error>)
        ensures
            base58_decoded(s@) is None ==> r is Err && r->Err_0 is BytesError,
            base58_decoded(s@) is Some ==> {
                let b = base58_decoded(s@)->Some_0;
                outcome_view(r) == sized_decode_spec(b, 96, g2_decode_spec(b))
            },
    {
        let v = match decode_sized(s, 96) {
            Ok(v) => v,
            Err(e) => return Err(e),
        };
        let mut bytes = [0u8; 96];
        copy_into(&mut bytes, v.as_slice());
        match MultisigPublicKey::from_bytes(&bytes) {
            Ok(v) => Ok(v),
            Err(e) => Err(Error::BytesError(e)),
        }
    }
}

impl Signature {
    /// The text form: base-58 of the checked encoding.
    pub fn to_base58(&self) -> (r: String)
        ensures
            r@ == base58_of(self@),
    {
        let bytes = self.to_bytes();
        base58_encode(&bytes)
    }

    /// Decodes the text form. Fails on a character outside the base-58
    /// alphabet, on a decoded length other than 48 bytes, and where the
    /// checked decoding fails.
    pub fn from_base58(s: &str) -> (r: Result<Signature, Error>)
        ensures
            base58_decoded(s@) is None ==> r is Err && r->Err_0 is BytesError,
            base58_decoded(s@) is Some ==> {
                let b = base58_decoded(s@)->Some_0;
                outcome_view(r) == sized_decode_spec(b, 48, g1_decode_spec(b))
            },
    {
        let v = match decode_sized(s, 48) {
            Ok(v) => v,
            Err(e) => return Err(e),
        };
        let mut bytes = [0u8; 48];
        copy_into(&mut bytes, v.as_slice());
        Signature::from_bytes(&bytes)
    }
}

impl MultisigSignature {
    /// The text form: base-58 of the checked encoding.
    pub fn to_base58(&self) -> (r: String)
        ensures
            r@ == base58_of(self@),
    {
        let bytes = self.to_bytes();
        base58_encode(&bytes)
    }

    /// Decodes the text form. Fails on a character outside the base-58
    /// alphabet, on a decoded length other than 48 bytes, and where the
    /// checked decoding fails.
    pub fn from_base58(s: &str) -> (r: Result<MultisigSignature, Error>)
        ensures
            base58_decoded(s@) is None ==> r is Err && r->Err_0 is BytesError,
            base58_decoded(s@) is Some ==> {
                let b = base58_decoded(s@)->Some_0;
                outcome_view(r) == sized_decode_spec(b, 48, g1_decode_spec(b))
            },
    {
        let v = match decode_sized(s, 48) {
            Ok(v) => v,
            Err(e) => return Err(e),
        };
        let mut bytes = [0u8; 48];
        copy_into(&mut bytes, v.as_slice());
        MultisigSignature::from_bytes(&bytes)
    }
}

} // verus!
