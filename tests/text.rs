use bls12_381_bls::{
    BytesError, Error, MultisigPublicKey, MultisigSignature, PublicKey, SecretKey, Signature,
};
use rand::rngs::StdRng;
use rand::SeedableRng;

#[test]
fn public_key() {
    let mut rng = StdRng::seed_from_u64(0xbeef);
    let pk = PublicKey::from(&SecretKey::random(&mut rng));
    let ser = pk.to_base58();
    let deser = PublicKey::from_base58(&ser);
    assert_eq!(pk, deser.unwrap());
}

#[test]
fn multisig_public_key() {
    let mut rng = StdRng::seed_from_u64(0xbeef);
    let pk = MultisigPublicKey::aggregate(&[PublicKey::from(&SecretKey::random(&mut rng))])
        .unwrap();
    let ser = pk.to_base58();
    let deser = MultisigPublicKey::from_base58(&ser);
    assert_eq!(pk, deser.unwrap());
}

#[test]
fn signature() {
    let mut rng = StdRng::seed_from_u64(0xbeef);
    let sk = SecretKey::random(&mut rng);
    let signature = sk.sign(b"a message");
    let ser = signature.to_base58();
    let deser = Signature::from_base58(&ser).unwrap();
    assert_eq!(signature, deser);
}

#[test]
fn multisig_signature() {
    let mut rng = StdRng::seed_from_u64(0xbeef);
    let sk = SecretKey::random(&mut rng);
    let pk = PublicKey::from(&sk);
    let signature = sk.sign_multisig(&pk, b"a message");
    let ser = signature.to_base58();
    let deser = MultisigSignature::from_base58(&ser).unwrap();
    assert_eq!(signature, deser);
}

#[test]
fn serde_secret_key() {
    let mut rng = StdRng::seed_from_u64(0xbeef);
    let sk = SecretKey::random(&mut rng);
    let ser = sk.to_base58();
    let deser = SecretKey::from_base58(&ser).unwrap();
    assert_eq!(sk, deser);
}

#[test]
fn wrong_encoded() {
    let wrong_encoded = "wrong-encoded";
    let public_key = PublicKey::from_base58(wrong_encoded);
    assert!(public_key.is_err());

    let secret_key = SecretKey::from_base58(wrong_encoded);
    assert!(secret_key.is_err());

    let signature = Signature::from_base58(wrong_encoded);
    assert!(signature.is_err());

    let public_key_double = MultisigPublicKey::from_base58(wrong_encoded);
    assert!(public_key_double.is_err());

    let signature_double = MultisigSignature::from_base58(wrong_encoded);
    assert!(signature_double.is_err());
}

#[test]
fn too_long_encoded() {
    let length_33_enc = "yaujE5CNg7SRYuf3Vw7G8QQdM7267QxJtfqGUEjLbxyCC";
    let length_49_enc = "RCR6kPYZDuew8ovT9MoxVv7mKRsbygumf2UTjvzs6AJhnukLj3BiFvjaE45Q41tKqdA";
    let length_97_enc = "7a5RpCdtr1aaXvaR3AofnEnVRh7kpzyqE8eYJpCBVLKLLpXVeN9UrXGRTZyq2upTVaJT5QnPQwZCGXW1oxrEAzrPvQ4vbWFwiHMJijZMzrPsTjQJFju1H4shrajuqUG4fYFpC";

    let public_key = PublicKey::from_base58(length_97_enc);
    assert!(public_key.is_err());

    let secret_key = SecretKey::from_base58(length_33_enc);
    assert!(secret_key.is_err());

    let signature = Signature::from_base58(length_49_enc);
    assert!(signature.is_err());

    let multisig_public_key = MultisigPublicKey::from_base58(length_97_enc);
    assert!(multisig_public_key.is_err());

    let multisig_signature = MultisigSignature::from_base58(length_49_enc);
    assert!(multisig_signature.is_err());
}

#[test]
fn too_short_encoded() {
    let length_31_enc = "3uTp29S3e2HQBekFYvVwsmoeEzk4uVWwQUjvJPwWKwU";
    let length_47_enc = "2F3DDEDEuxrszs3JfzFq51tnGNm3ZtrHwa7sAA4pkeo1JkqGTEYudnBZLNAkCohAd";
    let length_95_enc = "LZXkPWnz5xKxYnyDRZyJvL9vF44oQynzozqRBcpgWA3yZicbaxNeKKJrAMv3eXBbyEvk24mgz9Kg9tck5yEW6k16chN4hDWYUr5gDb9PJJ3YmUqcjG8yPaAuz3cNCE8dHv";

    let public_key = PublicKey::from_base58(length_95_enc);
    assert!(public_key.is_err());

    let secret_key = SecretKey::from_base58(length_31_enc);
    assert!(secret_key.is_err());

    let signature = Signature::from_base58(length_47_enc);
    assert!(signature.is_err());

    let multisig_public_key = MultisigPublicKey::from_base58(length_95_enc);
    assert!(multisig_public_key.is_err());

    let multisig_signature = MultisigSignature::from_base58(length_47_enc);
    assert!(multisig_signature.is_err());
}

#[test]
fn text_length_errors_are_exact() {
    let bytes = [7u8; 97];
    let long = bs58::encode(&bytes[..]).into_string();
    let short = bs58::encode(&bytes[..95]).into_string();
    assert_eq!(PublicKey::from_base58(&long), Err(Error::bad_length(97, 96)));
    assert_eq!(PublicKey::from_base58(&short), Err(Error::bad_length(95, 96)));
    assert_eq!(
        Signature::from_base58(&bs58::encode(&bytes[..49]).into_string()),
        Err(Error::bad_length(49, 48))
    );
    assert_eq!(
        MultisigSignature::from_base58(&bs58::encode(&bytes[..47]).into_string()),
        Err(Error::bad_length(47, 48))
    );
    assert_eq!(
        SecretKey::from_base58(&bs58::encode(&bytes[..33]).into_string()),
        Err(Error::bad_length(33, 32))
    );
    assert_eq!(
        MultisigPublicKey::from_base58(&bs58::encode(&bytes[..95]).into_string()),
        Err(Error::BytesError(BytesError::BadLength { found: 95, expected: 96 }))
    );
}

#[test]
fn text_invalid_character_is_located() {
    assert_eq!(
        PublicKey::from_base58("wrong-encoded"),
        Err(Error::invalid_char('-', 5))
    );
}

#[test]
fn text_of_a_known_key() {
    let sk = SecretKey::from_bytes(&[0u8; 32]).unwrap();
    assert_eq!(sk.to_base58(), "11111111111111111111111111111111");
}
