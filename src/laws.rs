//! Properties that relate several operations of the library.
use vstd::prelude::*;

use core::cmp::Ordering;

use crate::apk::accumulate_spec;
use crate::bytes::{lemma_lex_cmp_antisymmetric, lemma_lex_cmp_equal, lemma_lex_cmp_transitive, lex_cmp, reversed};
use crate::error::{BytesError, Error};
use crate::g1::{g1_valid, g1_well_formed};
use crate::g2::{g2_valid, g2_well_formed, is_infinity_encoding};
use crate::public::{aggregate_spec, all_valid, g2_decode_spec, verify_spec, weighted_key, weighted_sum};
use crate::scalar::is_canonical_scalar;
use crate::secret::scalar_decode_spec;
use crate::signature::g1_decode_spec;

verus! {

/// Decoding the checked encoding of a G2 value (a public key, a multi-signature
/// public key, an aggregated key) gives the value back. What `to_bytes` returns
/// for every such value meets the requirement.
pub proof fn lemma_g2_round_trip(v: Seq<u8>)
    requires
        g2_well_formed(v),
    ensures
        g2_decode_spec(v) == Ok::<Seq<u8>, BytesError>(v),
{
}

/// Decoding the checked encoding of a G1 value (a signature or a
/// multi-signature) gives the value back. What `to_bytes` returns for every
/// such value meets the requirement.
pub proof fn lemma_g1_round_trip(v: Seq<u8>)
    requires
        g1_well_formed(v),
    ensures
        g1_decode_spec(v) == Ok::<Seq<u8>, BytesError>(v),
{
}

/// Decoding the encoding of a secret key gives the key back. What `to_bytes`
/// returns for every key meets the requirement.
pub proof fn lemma_secret_key_round_trip(v: Seq<u8>)
    requires
        is_canonical_scalar(v),
    ensures
        scalar_decode_spec(v) == Ok::<Seq<u8>, BytesError>(v),
{
}

/// A public key that is the identity (the key of a zero secret key) is
/// rejected everywhere: it is not valid, verifying any signature against it
/// fails with `InvalidPoint`, and so does aggregating any list of keys that
/// holds it, in one call or into any accumulator.
pub proof fn lemma_identity_key_rejected(
    pk: Seq<u8>,
    sig: Seq<u8>,
    msg: Seq<u8>,
    pks: Seq<Seq<u8>>,
    i: int,
    acc: Seq<u8>,
)
    requires
        is_infinity_encoding(pk),
        0 <= i < pks.len(),
        pks[i] == pk,
    ensures
        !g2_valid(pk),
        verify_spec(pk, sig, msg) == Err::<(), Error>(Error::InvalidPoint),
        aggregate_spec(pks) == Err::<Seq<u8>, Error>(Error::InvalidPoint),
        accumulate_spec(acc, pks) == Err::<Seq<u8>, Error>(Error::InvalidPoint),
{
    assert(!g2_valid(pks[i]));
}

/// A signature that is the identity (the signature of a zero secret key) is
/// rejected: it is not valid, and verifying it against any key fails with
/// `InvalidPoint`.
pub proof fn lemma_identity_signature_rejected(pk: Seq<u8>, sig: Seq<u8>, msg: Seq<u8>)
    requires
        is_infinity_encoding(sig),
    ensures
        !g1_valid(sig),
        verify_spec(pk, sig, msg) == Err::<(), Error>(Error::InvalidPoint),
{
}

/// The batch aggregator and the incremental accumulator compute the same key:
/// aggregating a list in one call gives what an accumulator started from the
/// first key gives after adding the rest. Both succeed when every key and the
/// weighted first key are valid, and whenever both succeed their keys are equal.
pub proof fn lemma_batch_matches_accumulator(pks: Seq<Seq<u8>>)
    requires
        pks.len() > 0,
    ensures
        all_valid(pks) && g2_valid(weighted_key(pks[0])) ==> aggregate_spec(pks) is Ok
            && accumulate_spec(weighted_key(pks[0]), pks.drop_first()) is Ok,
        aggregate_spec(pks) is Ok && accumulate_spec(weighted_key(pks[0]), pks.drop_first()) is Ok
            ==> aggregate_spec(pks) == accumulate_spec(weighted_key(pks[0]), pks.drop_first()),
{
    if all_valid(pks) {
        assert(all_valid(pks.drop_first())) by {
            assert forall|j: int| 0 <= j < pks.drop_first().len() implies #[trigger] g2_valid(
                pks.drop_first()[j],
            ) by {
                assert(g2_valid(pks[j + 1]));
            }
        }
    }
}

/// Adding `a + b` to a sum of weighted keys is adding `a`, then `b`.
proof fn lemma_weighted_sum_append(acc: Seq<u8>, a: Seq<Seq<u8>>, b: Seq<Seq<u8>>)
    ensures
        weighted_sum(acc, a + b) == weighted_sum(weighted_sum(acc, a), b),
    decreases b.len(),
{
    if b.len() == 0 {
        assert(a + b =~= a);
    } else {
        assert((a + b).drop_last() =~= a + b.drop_last());
        assert((a + b).last() == b.last());
        lemma_weighted_sum_append(acc, a, b.drop_last());
    }
}

/// Adding keys to an accumulator in two calls gives the key that one call with
/// all of them gives, whenever both calls succeed.
pub proof fn lemma_accumulate_in_two_calls(acc: Seq<u8>, a: Seq<Seq<u8>>, b: Seq<Seq<u8>>)
    ensures
        accumulate_spec(acc, a) is Ok && accumulate_spec(accumulate_spec(acc, a)->Ok_0, b) is Ok
            ==> accumulate_spec(acc, a + b) == accumulate_spec(
            accumulate_spec(acc, a)->Ok_0,
            b,
        ),
{
    lemma_weighted_sum_append(acc, a, b);
    if all_valid(a) && all_valid(b) {
        assert forall|j: int| 0 <= j < (a + b).len() implies #[trigger] g2_valid((a + b)[j]) by {
            if j < a.len() {
                assert(g2_valid(a[j]));
            } else {
                assert(g2_valid(b[j - a.len()]));
            }
        }
    }
}

/// The order on checked encodings, by which points, keys and signatures compare
/// (`partial_cmp` of each is `Some(lex_cmp(a@, b@))`), is total and consistent
/// with equality: every pair compares,
/// a value equals itself, two values compare `Equal` exactly when they are
/// equal, swapping the operands reverses the outcome, and `<=` is transitive.
pub proof fn lemma_encoding_order(a: Seq<u8>, b: Seq<u8>, c: Seq<u8>)
    ensures
        lex_cmp(a, a) == Ordering::Equal,
        lex_cmp(a, b) == Ordering::Equal <==> a == b,
        lex_cmp(a, b) == reversed(lex_cmp(b, a)),
        lex_cmp(a, b) != Ordering::Greater && lex_cmp(b, c) != Ordering::Greater ==> lex_cmp(a, c)
            != Ordering::Greater,
        lex_cmp(a, b) == Ordering::Less && lex_cmp(b, c) == Ordering::Less ==> lex_cmp(a, c)
            == Ordering::Less,
{
    lemma_lex_cmp_equal(a, a);
    lemma_lex_cmp_equal(a, b);
    lemma_lex_cmp_antisymmetric(a, b);
    if lex_cmp(a, b) != Ordering::Greater && lex_cmp(b, c) != Ordering::Greater {
        lemma_lex_cmp_transitive(a, b, c);
    }
}

} // verus!
