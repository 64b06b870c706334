//! Plugin signatures: checking a plugin's bytes against its signed content
//! hash and Ed25519 signature, a store of trusted and blocked signer keys,
//! and the verifier that combines both under a minimum trust level.

use vstd::prelude::*;

use crate::plugin_error::text4;
use crate::text::{owned, string_equals_str};

verus! {

/// Value of a hexadecimal digit (either case), or `None` for another character.
pub open spec fn hex_digit_value(c: char) -> Option<int> {
    if '0' <= c && c <= '9' {
        Some(c as int - '0' as int)
    } else if 'a' <= c && c <= 'f' {
        Some(c as int - 'a' as int + 10)
    } else if 'A' <= c && c <= 'F' {
        Some(c as int - 'A' as int + 10)
    } else {
        None
    }
}

/// The bytes a hexadecimal text stands for: two digits per byte, the first
/// one high. `None` when the length is odd or a character is no digit.
pub open spec fn hex_decoding(text: Seq<char>) -> Option<Seq<u8>> {
    if text.len() % 2 == 0 && forall|i: int| 0 <= i < text.len() ==> #[trigger] hex_digit_value(text[i]) is Some {
        Some(Seq::new(
            (text.len() / 2) as nat,
            |i: int| (hex_digit_value(text[2 * i])->0 * 16 + hex_digit_value(text[2 * i + 1])->0) as u8,
        ))
    } else {
        None
    }
}

/// Decodes hexadecimal text with `hex::decode`: as its source shows, the
/// text must have an even length and hold only digits `0-9`, `a-f`, `A-F`,
/// and each pair of digits gives one byte, high digit first.
#[verifier::external_body]
fn decode_hex(text: &str) -> (r: Option<Vec<u8>>)
    ensures
        match r {
            Some(v) => hex_decoding(text@) == Some(v@),
            None => hex_decoding(text@) is None,
        },
{
    hex::decode(text).ok()
}

/// What `base64::decode` (the standard alphabet, with padding) makes of a
/// text: the decoded bytes, or `None` where it refuses the text.
pub uninterp spec fn base64_standard_decoding(text: Seq<char>) -> Option<Seq<u8>>;

/// Decodes base64 text with `base64::decode`. The contract only names the
/// outcome: the alphabet and padding rules are not restated here.
#[verifier::external_body]
#[allow(deprecated)]
fn decode_base64(text: &str) -> (r: Option<Vec<u8>>)
    ensures
        match r {
            Some(v) => base64_standard_decoding(text@) == Some(v@),
            None => base64_standard_decoding(text@) is None,
        },
{
    base64::decode(text).ok()
}

/// The SHA-256 digest of some bytes.
pub uninterp spec fn sha256_digest(data: Seq<u8>) -> Seq<u8>;

/// Hashes bytes with `sha2::Sha256::digest`. The contract names the digest
/// and states its length, 32 bytes; the hash function itself is not restated.
#[verifier::external_body]
pub(crate) fn sha256(data: &[u8]) -> (r: Vec<u8>)
    ensures
        r@ == sha256_digest(data@),
        r@.len() == 32,
{
    <sha2::Sha256 as sha2::Digest>::digest(data).to_vec()
}

/// What Ed25519 verification says of a signature on a message under a public
/// key: `None` when the key bytes are no valid curve point, else whether the
/// signature verifies.
pub uninterp spec fn ed25519_verdict(public_key: Seq<u8>, message: Seq<u8>, signature: Seq<u8>) -> Option<bool>;

/// Verifies an Ed25519 signature with `ed25519_dalek`: the key bytes go to
/// `VerifyingKey::from_bytes` (which refuses bytes that are no curve point)
/// and the signature bytes to `Signature::from_bytes`, then `verify` decides.
/// The contract only names the outcome.
#[verifier::external_body]
fn check_ed25519(public_key: &[u8], message: &[u8], signature: &[u8]) -> (r: Option<bool>)
    requires
        public_key@.len() == 32,
        signature@.len() == 64,
    ensures
        r == ed25519_verdict(public_key@, message@, signature@),
{
    let key_bytes: [u8; 32] = public_key.try_into().unwrap();
    let sig_bytes: [u8; 64] = signature.try_into().unwrap();
    match ed25519_dalek::VerifyingKey::from_bytes(&key_bytes) {
        Ok(key) => Some(ed25519_dalek::Verifier::verify(&key, message, &ed25519_dalek::Signature::from_bytes(&sig_bytes)).is_ok()),
        Err(_) => None,
    }
}

/// Whether two byte strings are equal.
fn bytes_equal(a: &[u8], b: &[u8]) -> (r: bool)
    ensures
        r == (a@ == b@),
{
    if a.len() != b.len() {
        return false;
    }
    let mut i: usize = 0;
    while i < a.len()
        invariant
            i <= a@.len(),
            a@.len() == b@.len(),
            forall|j: int| 0 <= j < i ==> a@[j] == b@[j],
        decreases a@.len() - i,
    {
        if a[i] != b[i] {
            return false;
        }
        i = i + 1;
    }
    assert(a@ =~= b@);
    true
}

/// Supported signature algorithms.
#[derive(Debug, Clone, Copy, PartialEq, Eq, Structural)]
#[allow(non_camel_case_types)]
pub enum SignatureAlgorithm {
    Ed25519,
    ECDSA_P256,
    RSA_PSS,
}

/// A certificate of a signer's chain.
#[derive(Debug, Clone)]
pub struct Certificate {
    pub id: String,
    pub subject: String,
    pub issuer: String,
    pub public_key: String,
    /// Start of validity, in seconds since the Unix epoch.
    pub valid_from: i64,
    /// End of validity, in seconds since the Unix epoch.
    pub valid_until: i64,
    pub signature: String,
}

/// The signature that comes with a plugin.
#[derive(Debug, Clone)]
pub struct PluginSignature {
    pub plugin_id: String,
    pub version: String,
    pub algorithm: SignatureAlgorithm,
    /// Public key of the signer, base64 encoded.
    pub public_key: String,
    /// Signature value, base64 encoded.
    pub signature: String,
    /// SHA-256 of the signed content, hex encoded.
    pub content_hash: String,
    /// When it was signed, in seconds since the Unix epoch.
    pub signed_at: i64,
    pub certificate_chain: Vec<Certificate>,
}

/// How far a plugin's signer is trusted, from least to most.
#[derive(Debug, Clone, Copy, PartialEq, Eq, PartialOrd, Ord, Hash)]
pub enum TrustLevel {
    /// Unsigned or invalid signature.
    Untrusted,
    /// No chain to a trusted root.
    SelfSigned,
    CommunityVerified,
    /// Signed by Vantis.
    Official,
}

/// Rank of a trust level: 0 for untrusted up to 3 for official.
pub open spec fn trust_rank(t: TrustLevel) -> u8 {
    match t {
        TrustLevel::Untrusted => 0,
        TrustLevel::SelfSigned => 1,
        TrustLevel::CommunityVerified => 2,
        TrustLevel::Official => 3,
    }
}

/// Name of a trust level.
pub open spec fn trust_name(t: TrustLevel) -> Seq<char> {
    match t {
        TrustLevel::Untrusted => "Untrusted"@,
        TrustLevel::SelfSigned => "SelfSigned"@,
        TrustLevel::CommunityVerified => "CommunityVerified"@,
        TrustLevel::Official => "Official"@,
    }
}

impl TrustLevel {
    /// Rank: 0 for untrusted up to 3 for official.
    pub fn rank(&self) -> (r: u8)
        ensures
            r == trust_rank(*self),
    {
        match self {
            TrustLevel::Untrusted => 0,
            TrustLevel::SelfSigned => 1,
            TrustLevel::CommunityVerified => 2,
            TrustLevel::Official => 3,
        }
    }

    /// The level's name.
    pub fn name(&self) -> (s: &'static str)
        ensures
            s@ == trust_name(*self),
    {
        match self {
            TrustLevel::Untrusted => "Untrusted",
            TrustLevel::SelfSigned => "SelfSigned",
            TrustLevel::CommunityVerified => "CommunityVerified",
            TrustLevel::Official => "Official",
        }
    }
}

/// Who signed a plugin.
#[derive(Debug, Clone)]
pub struct SignerInfo {
    pub id: String,
    pub name: String,
    pub verified: bool,
}

/// One check made during verification.
#[derive(Debug, Clone)]
pub struct VerificationDetail {
    pub check: String,
    pub passed: bool,
    pub message: String,
}

/// The outcome of verifying a plugin.
#[derive(Debug, Clone)]
pub struct VerificationResult {
    pub valid: bool,
    pub signer: Option<SignerInfo>,
    pub trust_level: TrustLevel,
    pub details: Vec<VerificationDetail>,
}

/// A check by its texts: name, whether it passed, message.
pub open spec fn detail_view(d: VerificationDetail) -> (Seq<char>, bool, Seq<char>) {
    (d.check@, d.passed, d.message@)
}

/// A signer by its texts: identifier, name, whether verified.
pub open spec fn signer_view(s: Option<SignerInfo>) -> Option<(Seq<char>, Seq<char>, bool)> {
    match s {
        Some(i) => Some((i.id@, i.name@, i.verified)),
        None => None,
    }
}

/// A verification outcome by its values: validity, signer, trust, checks.
pub type Verdict = (bool, Option<(Seq<char>, Seq<char>, bool)>, TrustLevel, Seq<(Seq<char>, bool, Seq<char>)>);

/// A verification result by its values.
pub open spec fn result_view(r: VerificationResult) -> Verdict {
    (r.valid, signer_view(r.signer), r.trust_level, r.details@.map_values(|d: VerificationDetail| detail_view(d)))
}

/// Why a signature could not be checked at all.
#[derive(Debug, Clone, Copy, PartialEq, Eq, Structural)]
pub enum SignatureError {
    /// The content hash is no hexadecimal text.
    InvalidContentHash,
    /// The public key is no base64 text.
    InvalidPublicKeyFormat,
    /// The signature is no base64 text.
    InvalidSignatureFormat,
    /// The public key is not 32 bytes long.
    InvalidPublicKeyLength,
    /// The signature is not 64 bytes long.
    InvalidSignatureLength,
    /// The public key bytes are no valid Ed25519 key.
    InvalidPublicKey,
}

impl SignatureError {
    /// The error's message.
    pub fn message(&self) -> (s: &'static str)
        ensures
            s@ == signature_error_text(*self),
    {
        match self {
            SignatureError::InvalidContentHash => "Invalid content hash format",
            SignatureError::InvalidPublicKeyFormat => "Invalid public key format",
            SignatureError::InvalidSignatureFormat => "Invalid signature format",
            SignatureError::InvalidPublicKeyLength => "Invalid public key length",
            SignatureError::InvalidSignatureLength => "Invalid signature length",
            SignatureError::InvalidPublicKey => "Invalid public key",
        }
    }
}

/// Message of a signature error.
pub open spec fn signature_error_text(e: SignatureError) -> Seq<char> {
    match e {
        SignatureError::InvalidContentHash => "Invalid content hash format"@,
        SignatureError::InvalidPublicKeyFormat => "Invalid public key format"@,
        SignatureError::InvalidSignatureFormat => "Invalid signature format"@,
        SignatureError::InvalidPublicKeyLength => "Invalid public key length"@,
        SignatureError::InvalidSignatureLength => "Invalid signature length"@,
        SignatureError::InvalidPublicKey => "Invalid public key"@,
    }
}

/// What checking a signature against some bytes gives: the hash is compared
/// first (a mismatch is an invalid, untrusted result), then the key and the
/// signature are decoded and their lengths checked (errors), then Ed25519
/// decides between a self-signed and an untrusted result.
pub open spec fn signature_verdict(sig: PluginSignature, data: Seq<u8>) -> Result<Verdict, SignatureError> {
    match hex_decoding(sig.content_hash@) {
        None => Err(SignatureError::InvalidContentHash),
        Some(expected) => if sha256_digest(data) != expected {
            Ok((false, None, TrustLevel::Untrusted, seq![("content_hash"@, false, "Content hash mismatch"@)]))
        } else {
            match base64_standard_decoding(sig.public_key@) {
                None => Err(SignatureError::InvalidPublicKeyFormat),
                Some(pk) => match base64_standard_decoding(sig.signature@) {
                    None => Err(SignatureError::InvalidSignatureFormat),
                    Some(sb) => if pk.len() != 32 {
                        Err(SignatureError::InvalidPublicKeyLength)
                    } else if sb.len() != 64 {
                        Err(SignatureError::InvalidSignatureLength)
                    } else {
                        match ed25519_verdict(pk, data, sb) {
                            None => Err(SignatureError::InvalidPublicKey),
                            Some(ok) => Ok((
                                ok,
                                None,
                                if ok { TrustLevel::SelfSigned } else { TrustLevel::Untrusted },
                                seq![
                                    ("content_hash"@, true, "Hash verified"@),
                                    ("signature"@, ok, if ok { "Signature valid"@ } else { "Invalid signature"@ }),
                                ],
                            )),
                        }
                    },
                },
            }
        },
    }
}

/// A check made during verification.
fn detail(check: &str, passed: bool, message: &str) -> (d: VerificationDetail)
    ensures
        detail_view(d) == (check@, passed, message@),
{
    VerificationDetail { check: owned(check), passed, message: owned(message) }
}

impl PluginSignature {
    /// Checks the signature against the plugin's bytes.
    pub fn verify(&self, plugin_data: &[u8]) -> (r: Result<VerificationResult, SignatureError>)
        ensures
            match r {
                Ok(res) => signature_verdict(*self, plugin_data@) == Ok::<Verdict, SignatureError>(result_view(res)),
                Err(e) => signature_verdict(*self, plugin_data@) == Err::<Verdict, SignatureError>(e),
            },
    {
        let computed = sha256(plugin_data);
        let expected = match decode_hex(self.content_hash.as_str()) {
            Some(v) => v,
            None => return Err(SignatureError::InvalidContentHash),
        };
        if !bytes_equal(computed.as_slice(), expected.as_slice()) {
            let mut details: Vec<VerificationDetail> = Vec::new();
            details.push(detail("content_hash", false, "Content hash mismatch"));
            let res = VerificationResult { valid: false, signer: None, trust_level: TrustLevel::Untrusted, details };
            assert(result_view(res).3 =~= seq![("content_hash"@, false, "Content hash mismatch"@)]);
            return Ok(res);
        }
        let public_key = match decode_base64(self.public_key.as_str()) {
            Some(v) => v,
            None => return Err(SignatureError::InvalidPublicKeyFormat),
        };
        let signature = match decode_base64(self.signature.as_str()) {
            Some(v) => v,
            None => return Err(SignatureError::InvalidSignatureFormat),
        };
        if public_key.len() != 32 {
            return Err(SignatureError::InvalidPublicKeyLength);
        }
        if signature.len() != 64 {
            return Err(SignatureError::InvalidSignatureLength);
        }
        let ok = match check_ed25519(public_key.as_slice(), plugin_data, signature.as_slice()) {
            Some(b) => b,
            None => return Err(SignatureError::InvalidPublicKey),
        };
        let mut details: Vec<VerificationDetail> = Vec::new();
        details.push(detail("content_hash", true, "Hash verified"));
        if ok {
            details.push(detail("signature", true, "Signature valid"));
        } else {
            details.push(detail("signature", false, "Invalid signature"));
        }
        let trust_level = if ok { TrustLevel::SelfSigned } else { TrustLevel::Untrusted };
        let res = VerificationResult { valid: ok, signer: None, trust_level, details };
        assert(result_view(res).3 =~= seq![
            ("content_hash"@, true, "Hash verified"@),
            ("signature"@, ok, if ok { "Signature valid"@ } else { "Invalid signature"@ }),
        ]);
        Ok(res)
    }
}

/// A certificate authority the store trusts.
#[derive(Debug, Clone)]
pub struct TrustedCA {
    pub id: String,
    pub name: String,
    pub public_key: String,
    /// Trust level this CA grants.
    pub trust_level: TrustLevel,
}

/// The texts held in a list of keys, as a set.
pub open spec fn key_set(keys: Seq<String>) -> Set<Seq<char>> {
    Set::new(|k: Seq<char>| exists|i: int| 0 <= i < keys.len() && (#[trigger] keys[i])@ == k)
}

/// Whether a list holds a key.
fn holds_key(keys: &Vec<String>, key: &str) -> (r: bool)
    ensures
        r == key_set(keys@).contains(key@),
{
    let mut i: usize = 0;
    while i < keys.len()
        invariant
            i <= keys@.len(),
            forall|j: int| 0 <= j < i ==> (#[trigger] keys@[j])@ != key@,
        decreases keys@.len() - i,
    {
        if string_equals_str(&keys[i], key) {
            return true;
        }
        i = i + 1;
    }
    false
}

/// Adds a key to a list unless it is already there.
fn insert_key(keys: &mut Vec<String>, key: &str)
    ensures
        key_set(final(keys)@) == key_set(old(keys)@).insert(key@),
{
    if !holds_key(keys, key) {
        keys.push(owned(key));
        proof {
            let ks = keys@;
            assert(ks[ks.len() - 1]@ == key@);
            assert(key_set(ks) =~= key_set(old(keys)@).insert(key@)) by {
                assert forall|k: Seq<char>| key_set(old(keys)@).insert(key@).contains(k) implies key_set(ks).contains(k) by {
                    if k != key@ {
                        let i = choose|i: int| 0 <= i < old(keys)@.len() && (#[trigger] old(keys)@[i])@ == k;
                        assert(ks[i] == old(keys)@[i]);
                    }
                }
                assert forall|k: Seq<char>| key_set(ks).contains(k) implies key_set(old(keys)@).insert(key@).contains(k) by {
                    let i = choose|i: int| 0 <= i < ks.len() && (#[trigger] ks[i])@ == k;
                    if i < old(keys)@.len() {
                        assert(ks[i] == old(keys)@[i]);
                    }
                }
            }
        }
    } else {
        assert(key_set(keys@) =~= key_set(old(keys)@).insert(key@));
    }
}

/// Removes every copy of a key from a list.
fn remove_key(keys: &mut Vec<String>, key: &str)
    ensures
        key_set(final(keys)@) == key_set(old(keys)@).remove(key@),
{
    let mut kept: Vec<String> = Vec::new();
    let mut i: usize = 0;
    while i < keys.len()
        invariant
            i <= keys@.len(),
            keys@ == old(keys)@,
            forall|j: int| 0 <= j < kept@.len() ==> (#[trigger] kept@[j])@ != key@,
            forall|k: Seq<char>| k != key@ ==> (key_set(kept@).contains(k)
                <==> exists|j: int| 0 <= j < i && (#[trigger] keys@[j])@ == k),
            forall|k: Seq<char>| #[trigger] key_set(kept@).contains(k) ==> k != key@,
        decreases keys@.len() - i,
    {
        if !string_equals_str(&keys[i], key) {
            let ghost before = kept@;
            kept.push(keys[i].clone());
            proof {
                assert forall|k: Seq<char>| k != key@ implies (key_set(kept@).contains(k)
                    <==> exists|j: int| 0 <= j < i + 1 && (#[trigger] keys@[j])@ == k) by {
                    if key_set(kept@).contains(k) {
                        let a = choose|a: int| 0 <= a < kept@.len() && (#[trigger] kept@[a])@ == k;
                        if a < before.len() {
                            assert(key_set(before).contains(k));
                        } else {
                            assert(keys@[i as int]@ == k);
                        }
                    }
                    if exists|j: int| 0 <= j < i + 1 && (#[trigger] keys@[j])@ == k {
                        let j = choose|j: int| 0 <= j < i + 1 && (#[trigger] keys@[j])@ == k;
                        if j < i {
                            assert(key_set(before).contains(k));
                            let a = choose|a: int| 0 <= a < before.len() && (#[trigger] before[a])@ == k;
                            assert(kept@[a] == before[a]);
                        } else {
                            assert(kept@[before.len() as int]@ == k);
                        }
                    }
                }
                assert forall|k: Seq<char>| #[trigger] key_set(kept@).contains(k) implies k != key@ by {
                    let a = choose|a: int| 0 <= a < kept@.len() && (#[trigger] kept@[a])@ == k;
                }
            }
        } else {
            proof {
                assert forall|k: Seq<char>| k != key@ implies (key_set(kept@).contains(k)
                    <==> exists|j: int| 0 <= j < i + 1 && (#[trigger] keys@[j])@ == k) by {
                    if exists|j: int| 0 <= j < i + 1 && (#[trigger] keys@[j])@ == k {
                        let j = choose|j: int| 0 <= j < i + 1 && (#[trigger] keys@[j])@ == k;
                        if j == i {
                            assert(keys@[j]@ == key@);
                        }
                        assert(exists|j: int| 0 <= j < i && (#[trigger] keys@[j])@ == k);
                    }
                }
            }
        }
        i = i + 1;
    }
    *keys = kept;
    proof {
        assert(key_set(keys@) =~= key_set(old(keys)@).remove(key@));
    }
}

/// Keys that are trusted or blocked.
pub struct TrustStore {
    trusted_keys: Vec<String>,
    blocked_keys: Vec<String>,
    certificate_authorities: Vec<TrustedCA>,
}

/// The key the store trusts from the start.
pub open spec fn official_key() -> Seq<char> {
    "VANTIS_OFFICIAL_KEY_PLACEHOLDER"@
}

impl TrustStore {
    /// The trusted keys.
    pub closed spec fn trusted(&self) -> Set<Seq<char>> {
        key_set(self.trusted_keys@)
    }

    /// The blocked keys.
    pub closed spec fn blocked(&self) -> Set<Seq<char>> {
        key_set(self.blocked_keys@)
    }

    /// A store that trusts and blocks nothing.
    pub fn new() -> (s: TrustStore)
        ensures
            s.trusted() == Set::<Seq<char>>::empty(),
            s.blocked() == Set::<Seq<char>>::empty(),
    {
        let s = TrustStore { trusted_keys: Vec::new(), blocked_keys: Vec::new(), certificate_authorities: Vec::new() };
        assert(s.trusted() =~= Set::<Seq<char>>::empty());
        assert(s.blocked() =~= Set::<Seq<char>>::empty());
        s
    }

    /// A store that trusts the official Vantis key.
    pub fn with_defaults() -> (s: TrustStore)
        ensures
            s.trusted() == set![official_key()],
            s.blocked() == Set::<Seq<char>>::empty(),
    {
        let mut store = TrustStore::new();
        let signer = SignerInfo { id: owned("vantis-official"), name: owned("Vantis Team"), verified: true };
        store.add_trusted_key("VANTIS_OFFICIAL_KEY_PLACEHOLDER", signer, TrustLevel::Official);
        assert(store.trusted() =~= set![official_key()]);
        store
    }

    /// Trusts a key. The signer and trust level given are not kept.
    pub fn add_trusted_key(&mut self, key: &str, signer: SignerInfo, trust_level: TrustLevel)
        ensures
            final(self).trusted() == old(self).trusted().insert(key@),
            final(self).blocked() == old(self).blocked(),
    {
        insert_key(&mut self.trusted_keys, key);
    }

    /// Blocks a key; it is no longer trusted.
    pub fn block_key(&mut self, key: &str)
        ensures
            final(self).blocked() == old(self).blocked().insert(key@),
            final(self).trusted() == old(self).trusted().remove(key@),
    {
        insert_key(&mut self.blocked_keys, key);
        remove_key(&mut self.trusted_keys, key);
    }

    /// Whether a key is trusted.
    pub fn is_trusted(&self, key: &str) -> (r: bool)
        ensures
            r == self.trusted().contains(key@),
    {
        holds_key(&self.trusted_keys, key)
    }

    /// Whether a key is blocked.
    pub fn is_blocked(&self, key: &str) -> (r: bool)
        ensures
            r == self.blocked().contains(key@),
    {
        holds_key(&self.blocked_keys, key)
    }

    /// Whether no key is trusted.
    pub fn has_no_trusted_keys(&self) -> (r: bool)
        ensures
            r == (self.trusted() == Set::<Seq<char>>::empty()),
    {
        let r = self.trusted_keys.len() == 0;
        proof {
            if r {
                assert(self.trusted() =~= Set::<Seq<char>>::empty());
            } else {
                assert(self.trusted().contains(self.trusted_keys@[0]@));
            }
        }
        r
    }

    /// Whether no key is blocked.
    pub fn has_no_blocked_keys(&self) -> (r: bool)
        ensures
            r == (self.blocked() == Set::<Seq<char>>::empty()),
    {
        let r = self.blocked_keys.len() == 0;
        proof {
            if r {
                assert(self.blocked() =~= Set::<Seq<char>>::empty());
            } else {
                assert(self.blocked().contains(self.blocked_keys@[0]@));
            }
        }
        r
    }

    /// The signer of a key: the store keeps no signers, so every key gets
    /// the same unverified, unknown signer.
    pub fn get_signer_info(&self, key: &str) -> (r: Option<SignerInfo>)
        ensures
            signer_view(r) == Some(("unknown"@, "Unknown Signer"@, false)),
    {
        Some(SignerInfo { id: owned("unknown"), name: owned("Unknown Signer"), verified: false })
    }

    /// The trust level of a key: the store keeps no levels, so every key is
    /// self-signed.
    pub fn get_trust_level(&self, key: &str) -> (r: TrustLevel)
        ensures
            r == TrustLevel::SelfSigned,
    {
        TrustLevel::SelfSigned
    }
}

impl Default for TrustStore {
    fn default() -> (s: TrustStore)
        ensures
            s.trusted() == Set::<Seq<char>>::empty(),
            s.blocked() == Set::<Seq<char>>::empty(),
    {
        TrustStore::new()
    }
}

/// The result of an unsigned plugin: valid exactly when unsigned plugins are allowed.
pub open spec fn unsigned_verdict(allow_unsigned: bool) -> Verdict {
    (allow_unsigned, None, TrustLevel::Untrusted, seq![("signature"@, false, "Plugin is unsigned"@)])
}

/// The trust store's word on a checked signature: a valid result from a
/// blocked signer becomes invalid and untrusted; from a trusted signer it
/// gets the store's signer and trust level.
pub open spec fn trust_store_verdict(v: Verdict, key: Seq<char>, trusted: Set<Seq<char>>, blocked: Set<Seq<char>>) -> Verdict {
    if v.0 {
        if blocked.contains(key) {
            (false, v.1, TrustLevel::Untrusted, v.3.push(("trust_store"@, false, "Signer is blocked"@)))
        } else if trusted.contains(key) {
            (v.0, Some(("unknown"@, "Unknown Signer"@, false)), TrustLevel::SelfSigned, v.3.push(("trust_store"@, true, "Signer is trusted"@)))
        } else {
            v
        }
    } else {
        v
    }
}

/// The minimum trust level's word: a valid result below it becomes invalid.
pub open spec fn min_trust_verdict(v: Verdict, min: TrustLevel) -> Verdict {
    if v.0 && trust_rank(v.2) < trust_rank(min) {
        (false, v.1, v.2, v.3.push(("trust_level"@, false, "Trust level "@ + trust_name(v.2) + " below minimum "@ + trust_name(min))))
    } else {
        v
    }
}

/// Checks plugins against their signatures and the trust store.
pub struct PluginVerifier {
    trust_store: TrustStore,
    allow_unsigned: bool,
    min_trust_level: TrustLevel,
}

impl PluginVerifier {
    /// The trusted keys of the verifier's store.
    pub closed spec fn trusted(&self) -> Set<Seq<char>> {
        self.trust_store.trusted()
    }

    /// The blocked keys of the verifier's store.
    pub closed spec fn blocked(&self) -> Set<Seq<char>> {
        self.trust_store.blocked()
    }

    /// Whether unsigned plugins pass.
    pub closed spec fn allows_unsigned(&self) -> bool {
        self.allow_unsigned
    }

    /// The lowest trust level that passes.
    pub closed spec fn minimum(&self) -> TrustLevel {
        self.min_trust_level
    }

    /// A verifier with the default store that refuses unsigned plugins and
    /// asks for at least a self-signed signature.
    pub fn new() -> (v: PluginVerifier)
        ensures
            v.trusted() == set![official_key()],
            v.blocked() == Set::<Seq<char>>::empty(),
            !v.allows_unsigned(),
            v.minimum() == TrustLevel::SelfSigned,
    {
        PluginVerifier { trust_store: TrustStore::with_defaults(), allow_unsigned: false, min_trust_level: TrustLevel::SelfSigned }
    }

    /// The same verifier, letting unsigned plugins pass or not.
    pub fn allow_unsigned(self, allow: bool) -> (v: PluginVerifier)
        ensures
            v.allows_unsigned() == allow,
            v.trusted() == self.trusted(),
            v.blocked() == self.blocked(),
            v.minimum() == self.minimum(),
    {
        let mut s = self;
        s.allow_unsigned = allow;
        s
    }

    /// The same verifier with another minimum trust level.
    pub fn min_trust_level(self, level: TrustLevel) -> (v: PluginVerifier)
        ensures
            v.minimum() == level,
            v.allows_unsigned() == self.allows_unsigned(),
            v.trusted() == self.trusted(),
            v.blocked() == self.blocked(),
    {
        let mut s = self;
        s.min_trust_level = level;
        s
    }

    /// Verifies a plugin's bytes against its signature, if it has one: an
    /// unsigned plugin passes only when allowed; a signed one is checked,
    /// then judged by the trust store and the minimum trust level.
    pub fn verify_plugin_data(&self, plugin_data: &[u8], signature: Option<&PluginSignature>) -> (r: Result<VerificationResult, SignatureError>)
        ensures
            match signature {
                None => r matches Ok(res) && result_view(res) == unsigned_verdict(self.allows_unsigned()),
                Some(sig) => match signature_verdict(*sig, plugin_data@) {
                    Err(e) => r == Err::<VerificationResult, SignatureError>(e),
                    Ok(v) => r matches Ok(res) && result_view(res) == min_trust_verdict(
                        trust_store_verdict(v, sig.public_key@, self.trusted(), self.blocked()),
                        self.minimum(),
                    ),
                },
            },
    {
        let sig = match signature {
            None => {
                let mut details: Vec<VerificationDetail> = Vec::new();
                details.push(detail("signature", false, "Plugin is unsigned"));
                let res = VerificationResult { valid: self.allow_unsigned, signer: None, trust_level: TrustLevel::Untrusted, details };
                assert(result_view(res).3 =~= seq![("signature"@, false, "Plugin is unsigned"@)]);
                return Ok(res);
            },
            Some(s) => s,
        };
        let mut result = match sig.verify(plugin_data) {
            Ok(res) => res,
            Err(e) => return Err(e),
        };
        let ghost v0 = result_view(result);
        let key = sig.public_key.as_str();
        if result.valid {
            if self.trust_store.is_blocked(key) {
                result.valid = false;
                result.trust_level = TrustLevel::Untrusted;
                result.details.push(detail("trust_store", false, "Signer is blocked"));
                assert(result_view(result).3 =~= v0.3.push(("trust_store"@, false, "Signer is blocked"@)));
            } else if self.trust_store.is_trusted(key) {
                result.signer = self.trust_store.get_signer_info(key);
                result.trust_level = self.trust_store.get_trust_level(key);
                result.details.push(detail("trust_store", true, "Signer is trusted"));
                assert(result_view(result).3 =~= v0.3.push(("trust_store"@, true, "Signer is trusted"@)));
            }
        }
        let ghost v1 = result_view(result);
        assert(v1 == trust_store_verdict(v0, sig.public_key@, self.trusted(), self.blocked()));
        if result.valid && result.trust_level.rank() < self.min_trust_level.rank() {
            result.valid = false;
            let message = text4("Trust level ", result.trust_level.name(), " below minimum ", self.min_trust_level.name());
            result.details.push(VerificationDetail { check: owned("trust_level"), passed: false, message });
            assert(result_view(result).3 =~= v1.3.push((
                "trust_level"@,
                false,
                "Trust level "@ + trust_name(v1.2) + " below minimum "@ + trust_name(self.minimum()),
            )));
        }
        Ok(result)
    }

    /// Trusts a key in the verifier's store.
    pub fn add_trusted_key(&mut self, key: &str, signer: SignerInfo, trust_level: TrustLevel)
        ensures
            final(self).trusted() == old(self).trusted().insert(key@),
            final(self).blocked() == old(self).blocked(),
            final(self).allows_unsigned() == old(self).allows_unsigned(),
            final(self).minimum() == old(self).minimum(),
    {
        self.trust_store.add_trusted_key(key, signer, trust_level);
    }

    /// Blocks a key in the verifier's store.
    pub fn block_key(&mut self, key: &str)
        ensures
            final(self).blocked() == old(self).blocked().insert(key@),
            final(self).trusted() == old(self).trusted().remove(key@),
            final(self).allows_unsigned() == old(self).allows_unsigned(),
            final(self).minimum() == old(self).minimum(),
    {
        self.trust_store.block_key(key);
    }
}

impl Default for PluginVerifier {
    fn default() -> (v: PluginVerifier)
        ensures
            v.trusted() == set![official_key()],
            v.blocked() == Set::<Seq<char>>::empty(),
            !v.allows_unsigned(),
            v.minimum() == TrustLevel::SelfSigned,
    {
        PluginVerifier::new()
    }
}

/// A plugin whose signer is blocked is never accepted, whatever its
/// signature and the minimum trust level.
pub proof fn law_blocked_signer_rejected(v: Verdict, key: Seq<char>, trusted: Set<Seq<char>>, blocked: Set<Seq<char>>, min: TrustLevel)
    requires
        blocked.contains(key),
    ensures
        !min_trust_verdict(trust_store_verdict(v, key, trusted, blocked), min).0,
{
}

/// An accepted signed plugin has at least the minimum trust level.
pub proof fn law_accepted_meets_minimum(v: Verdict, key: Seq<char>, trusted: Set<Seq<char>>, blocked: Set<Seq<char>>, min: TrustLevel)
    ensures
        min_trust_verdict(trust_store_verdict(v, key, trusted, blocked), min).0
            ==> trust_rank(min_trust_verdict(trust_store_verdict(v, key, trusted, blocked), min).2) >= trust_rank(min),
{
}

/// The minimum trust level turns away exactly the valid results whose
/// level ranks strictly below it; a result at or above the minimum, or one
/// already refused, passes through unchanged, and the level is never
/// changed.
pub proof fn law_min_trust_rejects_only_lower_levels(v: Verdict, min: TrustLevel)
    ensures
        trust_rank(v.2) >= trust_rank(min) ==> min_trust_verdict(v, min) == v,
        min_trust_verdict(v, min).0 <==> (v.0 && trust_rank(v.2) >= trust_rank(min)),
        min_trust_verdict(v, min).2 == v.2,
        min_trust_verdict(v, min).1 == v.1,
{
}

/// A plugin whose bytes match its content hash and whose Ed25519 signature
/// checks out under its key is accepted by a verifier that does not block
/// the key and asks for no more than a self-signed level, as the default
/// verifier does.
pub proof fn law_genuine_signature_accepted(
    sig: PluginSignature,
    data: Seq<u8>,
    trusted: Set<Seq<char>>,
    blocked: Set<Seq<char>>,
    min: TrustLevel,
    pk: Seq<u8>,
    sb: Seq<u8>,
)
    requires
        hex_decoding(sig.content_hash@) == Some(sha256_digest(data)),
        base64_standard_decoding(sig.public_key@) == Some(pk),
        base64_standard_decoding(sig.signature@) == Some(sb),
        pk.len() == 32,
        sb.len() == 64,
        ed25519_verdict(pk, data, sb) == Some(true),
        !blocked.contains(sig.public_key@),
        trust_rank(min) <= trust_rank(TrustLevel::SelfSigned),
    ensures
        signature_verdict(sig, data) matches Ok(v) && min_trust_verdict(
            trust_store_verdict(v, sig.public_key@, trusted, blocked),
            min,
        ).0,
{
}

/// A plugin whose Ed25519 signature does not check out under its key is
/// never accepted, whatever the trust store and the minimum trust level.
pub proof fn law_forged_signature_rejected(
    sig: PluginSignature,
    data: Seq<u8>,
    trusted: Set<Seq<char>>,
    blocked: Set<Seq<char>>,
    min: TrustLevel,
    pk: Seq<u8>,
    sb: Seq<u8>,
)
    requires
        base64_standard_decoding(sig.public_key@) == Some(pk),
        base64_standard_decoding(sig.signature@) == Some(sb),
        ed25519_verdict(pk, data, sb) == Some(false),
    ensures
        signature_verdict(sig, data) matches Ok(v) ==> !min_trust_verdict(
            trust_store_verdict(v, sig.public_key@, trusted, blocked),
            min,
        ).0,
{
}

/// A signature whose content hash does not match the plugin's bytes is
/// never accepted.
pub proof fn law_hash_mismatch_rejected(sig: PluginSignature, data: Seq<u8>)
    requires
        hex_decoding(sig.content_hash@) matches Some(expected) && expected != sha256_digest(data),
    ensures
        signature_verdict(sig, data) matches Ok(v) && !v.0,
{
}

/// Blocking a key leaves it blocked and no longer trusted.
pub proof fn law_block_overrides_trust(trusted: Set<Seq<char>>, blocked: Set<Seq<char>>, key: Seq<char>)
    ensures
        blocked.insert(key).contains(key),
        !trusted.remove(key).contains(key),
{
}

} // verus!
