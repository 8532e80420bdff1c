//! BLS signatures over the BLS12-381 pairing-friendly curve, in a single-signer
//! form and in a rogue-key resistant multi-signer form.
//!
//! Group elements and scalars are held as their canonical byte encodings; the
//! curve arithmetic itself is done by `dusk_bls12_381`.

pub mod apk;
pub mod bytes;
pub mod error;
pub mod g1;
pub mod g2;
pub mod hash;
pub mod laws;
pub mod public;
pub mod scalar;
pub mod secret;
pub mod signature;
pub mod text;

pub use apk::APK;
pub use error::{BytesError, Error};
pub use g1::G1Point;
pub use g2::G2Point;
pub use hash::{h0, h1};
pub use public::{MultisigPublicKey, PublicKey};
pub use scalar::Scalar;
pub use secret::SecretKey;
pub use signature::{MultisigSignature, Signature};
