//! Checking that a webhook request comes from Discord or Slack.

use vstd::prelude::*;
use vstd::utf8::encode_utf8;
use hmac::Mac;

use crate::codec::{hex_bytes, hex_decode, hex_encode, hex_text, is_hex_text};
use crate::config::schema::BotConfig;
use crate::daemon::state::duration_secs;
use crate::monitor::process::{from_utf8_lossy, utf8_lossy};
use crate::text::{chars_of, opt_text, parse_signed, parse_signed_chars, starts_with, trim, trim_str,
    string_from_chars};

verus! {

// ---------------------------------------------------------------------------
// Constant-time comparison
// ---------------------------------------------------------------------------

proof fn lemma_or_xor_zero(d: u8, x: u8, y: u8)
    ensures
        ((d | (x ^ y)) == 0) <==> (d == 0 && x == y),
{
    assert(((d | (x ^ y)) == 0) <==> (d == 0 && x == y)) by (bit_vector);
}

/// Compares two byte strings, looking at every byte whatever the outcome
/// once the lengths agree.
pub fn constant_time_eq(a: &[u8], b: &[u8]) -> (r: bool)
    ensures
        r == (a@ == b@),
{
    if a.len() != b.len() {
        return false;
    }
    let mut diff: u8 = 0;
    let mut i: usize = 0;
    while i < a.len()
        invariant
            i <= a@.len(),
            a@.len() == b@.len(),
            (diff == 0) <==> (forall|j: int| 0 <= j < i ==> a@[j] == b@[j]),
        decreases a@.len() - i,
    {
        proof { lemma_or_xor_zero(diff, a@[i as int], b@[i as int]); }
        diff = diff | (a[i] ^ b[i]);
        i = i + 1;
    }
    proof {
        if diff == 0 {
            assert(a@ =~= b@);
        }
    }
    diff == 0
}

// ---------------------------------------------------------------------------
// Discord (Ed25519)
// ---------------------------------------------------------------------------

/// Whether `ed25519_dalek::VerifyingKey::from_bytes` accepts these 32 bytes
/// (they must decompress to a curve point).
pub uninterp spec fn ed25519_key_accepted(key: Seq<u8>) -> bool;

/// Whether `ed25519_dalek::VerifyingKey::verify_strict` accepts the
/// signature of the message under the key.
pub uninterp spec fn ed25519_strict_accepts(key: Seq<u8>, message: Seq<u8>, signature: Seq<u8>) -> bool;

/// Why an Ed25519 check failed.
#[derive(Debug, Clone, Copy, PartialEq, Eq, Structural)]
pub enum Ed25519Failure {
    /// The key bytes are not a valid public key.
    InvalidKey,
    /// The signature does not verify.
    Rejected,
}

/// Calls `ed25519_dalek::VerifyingKey::from_bytes` on the key, then
/// `verify_strict` with the message and `Signature::from_bytes` of the
/// signature. The key is refused exactly when `from_bytes` fails; the check
/// passes exactly when the key is accepted and `verify_strict` succeeds.
#[verifier::external_body]
fn ed25519_verify_strict(key: &[u8; 32], message: &[u8], signature: &[u8; 64]) -> (r: Result<(), Ed25519Failure>)
    ensures
        match r {
            Ok(_) => ed25519_key_accepted(key@) && ed25519_strict_accepts(key@, message@, signature@),
            Err(Ed25519Failure::InvalidKey) => !ed25519_key_accepted(key@),
            Err(Ed25519Failure::Rejected) => ed25519_key_accepted(key@)
                && !ed25519_strict_accepts(key@, message@, signature@),
        },
{
    let verifying_key = match ed25519_dalek::VerifyingKey::from_bytes(key) {
        Ok(k) => k,
        Err(_) => return Err(Ed25519Failure::InvalidKey),
    };
    let signature = ed25519_dalek::Signature::from_bytes(signature);
    match verifying_key.verify_strict(message, &signature) {
        Ok(()) => Ok(()),
        Err(_) => Err(Ed25519Failure::Rejected),
    }
}

fn key_array(v: &Vec<u8>) -> (r: [u8; 32])
    requires
        v@.len() == 32,
    ensures
        r@ == v@,
{
    let mut a: [u8; 32] = [0u8; 32];
    let mut i: usize = 0;
    while i < 32
        invariant
            i <= 32,
            v@.len() == 32,
            a@.len() == 32,
            forall|j: int| 0 <= j < i ==> a@[j] == v@[j],
        decreases 32 - i,
    {
        a.set(i, v[i]);
        i = i + 1;
    }
    proof { assert(a@ =~= v@); }
    a
}

fn signature_array(v: &Vec<u8>) -> (r: [u8; 64])
    requires
        v@.len() == 64,
    ensures
        r@ == v@,
{
    let mut a: [u8; 64] = [0u8; 64];
    let mut i: usize = 0;
    while i < 64
        invariant
            i <= 64,
            v@.len() == 64,
            a@.len() == 64,
            forall|j: int| 0 <= j < i ==> a@[j] == v@[j],
        decreases 64 - i,
    {
        a.set(i, v[i]);
        i = i + 1;
    }
    proof { assert(a@ =~= v@); }
    a
}

/// The outcome of checking a Discord request: the public key configured,
/// the signature and timestamp headers (when present and readable), and the
/// body. The signed message is the timestamp's bytes followed by the body.
pub open spec fn discord_check(key: Option<Seq<char>>, signature: Option<Seq<char>>,
    timestamp: Option<Seq<char>>, body: Seq<u8>) -> Result<(), Seq<char>> {
    match key {
        None => Err("Discord public key not configured"@),
        Some(k) => match signature {
            None => Err("Missing Discord signature header"@),
            Some(s) => match timestamp {
                None => Err("Missing Discord timestamp header"@),
                Some(t) => {
                    let kt = trim(k);
                    if !is_hex_text(kt) {
                        Err("Invalid public key"@)
                    } else if hex_bytes(kt).len() != 32 {
                        Err("Invalid public key length"@)
                    } else if !is_hex_text(s) {
                        Err("Invalid signature"@)
                    } else if hex_bytes(s).len() != 64 {
                        Err("Invalid signature length"@)
                    } else if !ed25519_key_accepted(hex_bytes(kt)) {
                        Err("Invalid public key"@)
                    } else if !ed25519_strict_accepts(hex_bytes(kt), encode_utf8(t) + body, hex_bytes(s)) {
                        Err("Signature verification failed"@)
                    } else {
                        Ok(())
                    }
                },
            },
        },
    }
}

/// The view of a check's outcome.
pub open spec fn outcome(r: Result<(), &str>) -> Result<(), Seq<char>> {
    match r {
        Ok(_) => Ok(()),
        Err(m) => Err(m@),
    }
}

/// Checks the Ed25519 signature of a Discord interaction request.
pub fn verify_discord_signature(config: &BotConfig, signature: &Option<String>, timestamp: &Option<String>,
    body: &[u8]) -> (r: Result<(), &'static str>)
    ensures
        outcome(r) == discord_check(opt_text(config.discord_public_key), opt_text(*signature),
            opt_text(*timestamp), body@),
{
    let key_text = match &config.discord_public_key {
        Some(k) => k,
        None => return Err("Discord public key not configured"),
    };
    let signature_hex = match signature {
        Some(s) => s,
        None => return Err("Missing Discord signature header"),
    };
    let timestamp = match timestamp {
        Some(t) => t,
        None => return Err("Missing Discord timestamp header"),
    };
    let trimmed = string_from_chars(trim_str(key_text.as_str()).as_slice());
    let key_bytes = match hex_decode(trimmed.as_str()) {
        Some(b) => b,
        None => return Err("Invalid public key"),
    };
    if key_bytes.len() != 32 {
        return Err("Invalid public key length");
    }
    let signature_bytes = match hex_decode(signature_hex.as_str()) {
        Some(b) => b,
        None => return Err("Invalid signature"),
    };
    if signature_bytes.len() != 64 {
        return Err("Invalid signature length");
    }
    let key = key_array(&key_bytes);
    let sig = signature_array(&signature_bytes);
    let mut message: Vec<u8> = Vec::new();
    message.extend_from_slice(timestamp.as_str().as_bytes());
    message.extend_from_slice(body);
    assert(trimmed@ == trim(key_text@));
    assert(message@ == encode_utf8(timestamp@) + body@);
    assert(key@ == hex_bytes(trim(key_text@)));
    match ed25519_verify_strict(&key, message.as_slice(), &sig) {
        Ok(()) => Ok(()),
        Err(Ed25519Failure::InvalidKey) => Err("Invalid public key"),
        Err(Ed25519Failure::Rejected) => Err("Signature verification failed"),
    }
}

// ---------------------------------------------------------------------------
// Slack (HMAC-SHA256)
// ---------------------------------------------------------------------------

/// The HMAC-SHA256 tag of `message` under `key`, as the `hmac` crate
/// computes it with `sha2::Sha256`.
pub uninterp spec fn hmac_sha256(key: Seq<u8>, message: Seq<u8>) -> Seq<u8>;

/// Calls `Hmac::<Sha256>::new_from_slice`, `update` and `finalize`. Its
/// source accepts keys of any length (a longer key is hashed first), so the
/// tag is always produced; it is 32 bytes long.
#[verifier::external_body]
fn hmac_sha256_tag(key: &[u8], message: &[u8]) -> (r: Option<Vec<u8>>)
    ensures
        r is Some,
        r matches Some(t) ==> t@ == hmac_sha256(key@, message@),
        r matches Some(t) ==> t@.len() == 32,
{
    match hmac::Hmac::<sha2::Sha256>::new_from_slice(key) {
        Ok(mut mac) => {
            mac.update(message);
            Some(mac.finalize().into_bytes().to_vec())
        },
        Err(_) => None,
    }
}

#[verifier::external_type_specification]
#[verifier::external_body]
pub struct ExSystemTime(std::time::SystemTime);

/// Calls `std::time::SystemTime::now`; the result depends on the clock.
#[verifier::external_body]
fn system_time_now() -> (r: std::time::SystemTime) {
    std::time::SystemTime::now()
}

/// Calls `SystemTime::duration_since` with `UNIX_EPOCH`; it fails for a
/// time before the epoch.
#[verifier::external_body]
fn since_unix_epoch(t: &std::time::SystemTime) -> (r: Option<std::time::Duration>) {
    t.duration_since(std::time::UNIX_EPOCH).ok()
}

/// Whole seconds since the Unix epoch by the system clock, or `None` when
/// the clock reads earlier than the epoch.
pub fn unix_now_secs() -> (r: Option<u64>) {
    let now = system_time_now();
    match since_unix_epoch(&now) {
        Some(d) => Some(duration_secs(&d)),
        None => None,
    }
}

/// How far, in seconds, a Slack request's timestamp may be from now.
pub const SLACK_TIMEOUT_SECS: i64 = 300;

pub open spec fn abs_int(i: int) -> int {
    if i < 0 { -i } else { i }
}

/// The text Slack signs: `v0:`, the timestamp, `:` and the body (decoded
/// leniently as UTF-8).
pub open spec fn slack_base_string(timestamp: Seq<char>, body: Seq<u8>) -> Seq<char> {
    "v0:"@ + timestamp + ":"@ + utf8_lossy(body)
}

/// The signature header Slack sends for a request: `v0=` and the hex tag.
pub open spec fn slack_expected_signature(secret: Seq<char>, timestamp: Seq<char>, body: Seq<u8>) -> Seq<char> {
    "v0="@ + hex_text(hmac_sha256(encode_utf8(secret), encode_utf8(slack_base_string(timestamp, body))))
}

/// The outcome of checking a Slack request: the signing secret configured,
/// the signature and timestamp headers (when present and readable), the
/// body, and the clock in whole seconds since the epoch (`None` before it).
pub open spec fn slack_check(secret: Option<Seq<char>>, signature: Option<Seq<char>>,
    timestamp: Option<Seq<char>>, body: Seq<u8>, now: Option<u64>) -> Result<(), Seq<char>> {
    match secret {
        None => Err("Slack signing secret not configured"@),
        Some(k) => match signature {
            None => Err("Missing Slack signature header"@),
            Some(s) => match timestamp {
                None => Err("Missing Slack timestamp header"@),
                Some(t) => if !starts_with(s, "v0="@) {
                    Err("Invalid Slack signature format"@)
                } else {
                    match parse_signed(t, i64::MIN as int, i64::MAX as int) {
                        None => Err("Invalid timestamp"@),
                        Some(tv) => match now {
                            None => Err("Invalid system time"@),
                            Some(n) => if abs_int((n as i64) as int - tv) > SLACK_TIMEOUT_SECS {
                                Err("Slack request timestamp out of range"@)
                            } else if encode_utf8(slack_expected_signature(k, t, body)) != encode_utf8(s) {
                                Err("Signature verification failed"@)
                            } else {
                                Ok(())
                            },
                        },
                    }
                },
            },
        },
    }
}

/// A request signed the way Slack signs it, with the configured secret, is
/// accepted as long as its timestamp is within five minutes of the clock.
pub proof fn lemma_slack_accepts_signed(secret: Seq<char>, timestamp: Seq<char>, body: Seq<u8>, now: u64)
    requires
        parse_signed(timestamp, i64::MIN as int, i64::MAX as int) matches Some(t)
            && abs_int((now as i64) as int - t) <= SLACK_TIMEOUT_SECS,
    ensures
        slack_check(Some(secret), Some(slack_expected_signature(secret, timestamp, body)), Some(timestamp), body,
            Some(now)) is Ok,
{
    reveal_strlit("v0=");
    let sig = slack_expected_signature(secret, timestamp, body);
    assert(sig.subrange(0, 3) =~= "v0="@);
}

/// Checks the HMAC signature of a Slack slash-command request against the
/// clock reading `now`.
pub fn verify_slack_signature_at(config: &BotConfig, signature: &Option<String>, timestamp: &Option<String>,
    body: &[u8], now: Option<u64>) -> (r: Result<(), &'static str>)
    ensures
        outcome(r) == slack_check(opt_text(config.slack_signing_secret), opt_text(*signature),
            opt_text(*timestamp), body@, now),
{
    let secret = match &config.slack_signing_secret {
        Some(k) => k,
        None => return Err("Slack signing secret not configured"),
    };
    let signature = match signature {
        Some(s) => s,
        None => return Err("Missing Slack signature header"),
    };
    let timestamp = match timestamp {
        Some(t) => t,
        None => return Err("Missing Slack timestamp header"),
    };
    let sig_chars = chars_of(signature.as_str());
    let prefix = chars_of("v0=");
    if !crate::text::starts_with_chars(sig_chars.as_slice(), prefix.as_slice()) {
        return Err("Invalid Slack signature format");
    }
    let ts_chars = chars_of(timestamp.as_str());
    let timestamp_value = match parse_signed_chars(ts_chars.as_slice(), i64::MIN, i64::MAX) {
        Some(v) => v,
        None => return Err("Invalid timestamp"),
    };
    let now = match now {
        Some(n) => n,
        None => return Err("Invalid system time"),
    };
    let now_i: i64 = now as i64;
    let delta: i128 = (now_i as i128) - (timestamp_value as i128);
    let distance: i128 = if delta < 0 { -delta } else { delta };
    if distance > SLACK_TIMEOUT_SECS as i128 {
        return Err("Slack request timestamp out of range");
    }
    let lossy = from_utf8_lossy(body);
    let mut base = "v0:".to_string();
    base.append(timestamp.as_str());
    base.append(":");
    base.append(lossy.as_str());
    assert(base@ == slack_base_string(timestamp@, body@));
    let tag = match hmac_sha256_tag(secret.as_str().as_bytes(), base.as_str().as_bytes()) {
        Some(t) => t,
        None => return Err("Invalid secret"),
    };
    let digest = hex_encode(tag.as_slice());
    let mut expected = "v0=".to_string();
    expected.append(digest.as_str());
    assert(expected@ == slack_expected_signature(secret@, timestamp@, body@));
    if !constant_time_eq(expected.as_str().as_bytes(), signature.as_str().as_bytes()) {
        return Err("Signature verification failed");
    }
    Ok(())
}

/// Checks the HMAC signature of a Slack slash-command request against the
/// system clock.
pub fn verify_slack_signature(config: &BotConfig, signature: &Option<String>, timestamp: &Option<String>,
    body: &[u8]) -> (r: Result<(), &'static str>)
    ensures
        exists|now: Option<u64>| outcome(r) == #[trigger] slack_check(opt_text(config.slack_signing_secret),
            opt_text(*signature), opt_text(*timestamp), body@, now),
{
    let now = unix_now_secs();
    verify_slack_signature_at(config, signature, timestamp, body, now)
}

} // verus!
