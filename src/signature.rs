//! The signature engine: the canonical string of a request and its
//! HMAC-SHA384 signature.

use vstd::prelude::*;
use vstd::utf8::encode_utf8;
use crate::params::values_in_key_order;
use crate::text::{decimal, decimal_digit, first_segment, hex_of};

verus! {

/// Inputs to HMAC-SHA384 stay below this many bytes (ring accepts fewer than
/// 2^61, block padding included).
pub const HMAC_INPUT_LIMIT: u64 = 0x1000_0000_0000_0000;

/// The HMAC-SHA384 tag of `message` under `key`, both as bytes.
pub uninterp spec fn hmac_sha384_of(key: Seq<u8>, message: Seq<u8>) -> Seq<u8>;

/// Relies on ring's `hmac::Key::new(hmac::HMAC_SHA384, ..)` and `hmac::sign`:
/// the HMAC-SHA384 tag of the UTF-8 bytes of `message` under the UTF-8 bytes
/// of `key`, 48 bytes long (the SHA-384 output length). ring panics on inputs
/// of 2^61 bytes or more, which the bounds keep out.
#[verifier::external_body]
pub(crate) fn hmac_sha384(key: &str, message: &str) -> (r: Vec<u8>)
    requires
        encode_utf8(key@).len() < HMAC_INPUT_LIMIT,
        encode_utf8(message@).len() < HMAC_INPUT_LIMIT,
    ensures
        r@ == hmac_sha384_of(encode_utf8(key@), encode_utf8(message@)),
        r@.len() == 48,
{
    let k = ring::hmac::Key::new(ring::hmac::HMAC_SHA384, key.as_bytes());
    ring::hmac::sign(&k, message.as_bytes()).as_ref().to_vec()
}

/// Relies on `SystemTime::elapsed` of `UNIX_EPOCH`: the whole seconds from the
/// Unix epoch to the system clock's current time, or `None` when the clock
/// reads before the epoch. Nothing is promised of the value.
#[verifier::external_body]
pub(crate) fn unix_seconds() -> (r: Option<u64>) {
    std::time::UNIX_EPOCH.elapsed().ok().map(|d| d.as_secs())
}

/// The timestamp of a clock reading: decimal seconds, empty when the clock
/// could not be read.
pub open spec fn timestamp_text(secs: Option<u64>) -> Seq<char> {
    match secs {
        Some(s) => decimal(s as nat),
        None => seq![],
    }
}

/// The canonical string to sign: `<timestamp>/<version>/<endpoint>`, and for
/// a POST the parameter values in ascending order of their names.
pub open spec fn signature_text(
    timestamp: Seq<char>,
    version: Seq<char>,
    endpoint: Seq<char>,
    params: Seq<(Seq<char>, Seq<char>)>,
    is_get: bool,
) -> Seq<char> {
    timestamp + seq!['/'] + version + seq!['/'] + endpoint + if is_get {
        seq![]
    } else {
        values_in_key_order(params)
    }
}

/// The signature of `message` under `secret`: the lowercase hex of its
/// HMAC-SHA384 tag.
pub open spec fn signature_of(secret: Seq<char>, message: Seq<char>) -> Seq<char> {
    hex_of(hmac_sha384_of(encode_utf8(secret), encode_utf8(message)))
}

/// Whether `secret` and `message` are short enough to be signed.
pub open spec fn signable(secret: Seq<char>, message: Seq<char>) -> bool {
    encode_utf8(secret).len() < HMAC_INPUT_LIMIT && encode_utf8(message).len() < HMAC_INPUT_LIMIT
}

/// Hex notation has two digits per byte.
pub proof fn lemma_hex_len(bytes: Seq<u8>)
    ensures
        hex_of(bytes).len() == 2 * bytes.len(),
    decreases bytes.len(),
{
    if bytes.len() > 0 {
        lemma_hex_len(bytes.drop_last());
    }
}

/// Decimal notation holds no `/`.
pub proof fn lemma_decimal_has_no_slash(n: nat)
    ensures
        forall|i: int| 0 <= i < decimal(n).len() ==> decimal(n)[i] != '/',
    decreases n,
{
    let digits = seq!['0', '1', '2', '3', '4', '5', '6', '7', '8', '9'];
    assert(forall|d: int| 0 <= d < 10 ==> digits[d] != '/');
    if n >= 10 {
        lemma_decimal_has_no_slash(n / 10);
        let p = decimal(n / 10);
        let last = seq![decimal_digit((n % 10) as int)];
        assert(last[0] != '/');
        assert(decimal(n) == p + last);
        assert forall|i: int| 0 <= i < decimal(n).len() implies decimal(n)[i] != '/' by {
            if i < p.len() {
                assert((p + last)[i] == p[i]);
            } else {
                assert((p + last)[i] == last[i - p.len()]);
            }
        }
    } else {
        assert(decimal_digit(n as int) != '/');
    }
}

/// The first segment of `a + b` is `a` when `a` holds no `/` and `b` starts
/// with one.
pub proof fn lemma_first_segment_of_prefix(a: Seq<char>, b: Seq<char>)
    requires
        forall|i: int| 0 <= i < a.len() ==> a[i] != '/',
        b.len() > 0,
        b[0] == '/',
    ensures
        first_segment(a + b) == a,
    decreases a.len(),
{
    if a.len() == 0 {
        assert(a + b =~= b);
    } else {
        assert((a + b).drop_first() =~= a.drop_first() + b);
        lemma_first_segment_of_prefix(a.drop_first(), b);
        assert(a =~= seq![a[0]] + a.drop_first());
    }
}

/// The timestamp that a signed string starts with is the timestamp of the
/// clock reading it was made from, so the timestamp header repeats it.
pub proof fn lemma_timestamp_is_first_segment(
    secs: Option<u64>,
    version: Seq<char>,
    endpoint: Seq<char>,
    params: Seq<(Seq<char>, Seq<char>)>,
    is_get: bool,
)
    ensures
        first_segment(signature_text(timestamp_text(secs), version, endpoint, params, is_get))
            == timestamp_text(secs),
{
    let t = timestamp_text(secs);
    if let Some(s) = secs {
        lemma_decimal_has_no_slash(s as nat);
    }
    let rest = seq!['/'] + version + seq!['/'] + endpoint + if is_get {
        seq![]
    } else {
        values_in_key_order(params)
    };
    assert(signature_text(t, version, endpoint, params, is_get) =~= t + rest);
    lemma_first_segment_of_prefix(t, rest);
}

/// A GET's signed string ends with `/<version>/<endpoint>`, whatever the
/// parameters and the timestamp.
pub proof fn lemma_get_signature_ends_with_endpoint(
    timestamp: Seq<char>,
    version: Seq<char>,
    endpoint: Seq<char>,
    params: Seq<(Seq<char>, Seq<char>)>,
)
    ensures
        ({
            let s = signature_text(timestamp, version, endpoint, params, true);
            let tail = seq!['/'] + version + seq!['/'] + endpoint;
            s.len() >= tail.len() && s.subrange(s.len() - tail.len(), s.len() as int) == tail
        }),
{
    let s = signature_text(timestamp, version, endpoint, params, true);
    let tail = seq!['/'] + version + seq!['/'] + endpoint;
    assert(s =~= timestamp + tail);
    assert(s.subrange(s.len() - tail.len(), s.len() as int) =~= tail);
}

/// Signing is deterministic: the same secret and message always give the
/// same signature.
pub proof fn lemma_signature_is_deterministic(
    secret1: Seq<char>,
    message1: Seq<char>,
    secret2: Seq<char>,
    message2: Seq<char>,
)
    requires
        secret1 == secret2,
        message1 == message2,
    ensures
        signature_of(secret1, message1) == signature_of(secret2, message2),
{
}

} // verus!
