use vantis::signing::{
    PluginSignature, PluginVerifier, SignatureAlgorithm, SignatureError, SignerInfo, TrustLevel, TrustStore,
};
use vantis::zero_trust::{
    AccessDecision, Action, DenialReason, IdentityStatus, Policy, PolicyCondition, PolicyEffect, PolicyEngine,
    Resource, ResourceMatcher, ResourceType, Sensitivity, SessionManager, ZeroTrustContext, AuthMethod,
};

fn signer() -> SignerInfo {
    SignerInfo { id: "test".to_string(), name: "Test".to_string(), verified: false }
}

#[test]
fn test_trust_store_creation() {
    let store = TrustStore::new();
    assert!(store.has_no_trusted_keys());
    assert!(store.has_no_blocked_keys());
}

#[test]
fn test_trust_store_add_key() {
    let mut store = TrustStore::new();
    store.add_trusted_key("test_key", signer(), TrustLevel::CommunityVerified);

    assert!(store.is_trusted("test_key"));
    assert!(!store.is_blocked("test_key"));
}

#[test]
fn test_trust_store_block_key() {
    let mut store = TrustStore::new();
    store.add_trusted_key("test_key", signer(), TrustLevel::SelfSigned);

    store.block_key("test_key");

    assert!(!store.is_trusted("test_key"));
    assert!(store.is_blocked("test_key"));
}

#[test]
fn test_trust_level_ordering() {
    assert!(TrustLevel::Official > TrustLevel::CommunityVerified);
    assert!(TrustLevel::CommunityVerified > TrustLevel::SelfSigned);
    assert!(TrustLevel::SelfSigned > TrustLevel::Untrusted);
}

#[test]
fn default_store_trusts_official_key() {
    let store = TrustStore::with_defaults();
    assert!(store.is_trusted("VANTIS_OFFICIAL_KEY_PLACEHOLDER"));
    assert!(!store.has_no_trusted_keys());
    assert_eq!(store.get_trust_level("x"), TrustLevel::SelfSigned);
    assert_eq!(store.get_signer_info("x").unwrap().name, "Unknown Signer");
}

fn signature(content_hash: &str, public_key: &str, sig: &str) -> PluginSignature {
    PluginSignature {
        plugin_id: "p".to_string(),
        version: "1.0.0".to_string(),
        algorithm: SignatureAlgorithm::Ed25519,
        public_key: public_key.to_string(),
        signature: sig.to_string(),
        content_hash: content_hash.to_string(),
        signed_at: 0,
        certificate_chain: Vec::new(),
    }
}

// SHA-256 of the bytes "abc".
const ABC_SHA256: &str = "ba7816bf8f01cfea414140de5dae2223b00361a396177a9cb410ff61f20015ad";

#[test]
fn unsigned_plugins_pass_only_when_allowed() {
    let verifier = PluginVerifier::new();
    let r = verifier.verify_plugin_data(b"abc", None).unwrap();
    assert!(!r.valid);
    assert_eq!(r.trust_level, TrustLevel::Untrusted);
    assert_eq!(r.details[0].message, "Plugin is unsigned");
    let r = PluginVerifier::new().allow_unsigned(true).verify_plugin_data(b"abc", None).unwrap();
    assert!(r.valid);
}

#[test]
fn hash_mismatch_is_an_invalid_result() {
    let sig = signature(&"00".repeat(32), "AAAA", "AAAA");
    let r = sig.verify(b"abc").unwrap();
    assert!(!r.valid);
    assert_eq!(r.details[0].check, "content_hash");
    assert_eq!(r.details[0].message, "Content hash mismatch");
}

#[test]
fn malformed_signature_fields_are_errors() {
    assert_eq!(signature("zz", "AAAA", "AAAA").verify(b"abc").unwrap_err(), SignatureError::InvalidContentHash);
    assert_eq!(signature(ABC_SHA256, "!!", "AAAA").verify(b"abc").unwrap_err(), SignatureError::InvalidPublicKeyFormat);
    assert_eq!(signature(ABC_SHA256, "AAAA", "!!").verify(b"abc").unwrap_err(), SignatureError::InvalidSignatureFormat);
    assert_eq!(signature(ABC_SHA256, "AAAA", "AAAA").verify(b"abc").unwrap_err(), SignatureError::InvalidPublicKeyLength);
    let key32 = "A".repeat(43) + "=";
    assert_eq!(signature(ABC_SHA256, &key32, "AAAA").verify(b"abc").unwrap_err(), SignatureError::InvalidSignatureLength);
    assert_eq!(SignatureError::InvalidPublicKeyLength.message(), "Invalid public key length");
}

#[test]
fn wrong_signature_on_valid_key_is_untrusted() {
        let key32 = "A".repeat(43) + "=";
    let sig64 = "A".repeat(86) + "==";
    let r = signature(&ABC_SHA256.to_uppercase(), &key32, &sig64).verify(b"abc");
    match r {
        Ok(res) => {
            assert_eq!(res.details.len(), 2);
            assert_eq!(res.details[0].message, "Hash verified");
            if res.valid {
                assert_eq!(res.trust_level, TrustLevel::SelfSigned);
            } else {
                assert_eq!(res.trust_level, TrustLevel::Untrusted);
                assert_eq!(res.details[1].message, "Invalid signature");
            }
        }
        Err(e) => assert_eq!(e, SignatureError::InvalidPublicKey),
    }
}

fn context(identity: IdentityStatus, sensitivity: Sensitivity) -> ZeroTrustContext {
    ZeroTrustContext {
        identity,
        device: None,
        location: None,
        resource: Resource {
            id: "test".to_string(),
            resource_type: ResourceType::MediaFile,
            sensitivity,
            owner: "user".to_string(),
        },
        action: Action::Read,
        timestamp: 0,
        session_id: "test".to_string(),
    }
}

#[test]
fn test_policy_engine_default_deny() {
    let engine = PolicyEngine::new();
    let context = context(IdentityStatus::Unverified, Sensitivity::Public);

    match engine.evaluate(&context) {
        AccessDecision::Deny { .. } => (),
        _ => panic!("Expected deny for unverified identity"),
    }
}

fn policy(name: &str, matcher: ResourceMatcher, conditions: Vec<PolicyCondition>, effect: PolicyEffect, priority: u8) -> Policy {
    Policy {
        id: name.to_string(),
        name: name.to_string(),
        description: String::new(),
        resource_matcher: matcher,
        conditions,
        effect,
        priority,
    }
}

#[test]
fn highest_priority_applicable_policy_decides() {
    let mut engine = PolicyEngine::new();
    engine.add_policy(policy("allow", ResourceMatcher::All, vec![PolicyCondition::IdentityVerified], PolicyEffect::Allow, 1));
    engine.add_policy(policy("deny-media", ResourceMatcher::Type(ResourceType::MediaFile), vec![], PolicyEffect::Deny, 5));
    let verified = IdentityStatus::Verified { method: AuthMethod::Password };
    assert_eq!(
        engine.evaluate_at(&context(verified.clone(), Sensitivity::Public), 12),
        AccessDecision::Deny { reason: DenialReason::InsufficientPrivileges }
    );
    let mut engine = PolicyEngine::new();
    engine.add_policy(policy("night", ResourceMatcher::All, vec![PolicyCondition::TimeWindow { start: 0, end: 6 }], PolicyEffect::Allow, 1));
    assert_eq!(engine.evaluate_at(&context(verified.clone(), Sensitivity::Public), 3), AccessDecision::Allow);
    assert_eq!(
        engine.evaluate_at(&context(verified.clone(), Sensitivity::Public), 12),
        AccessDecision::Deny { reason: DenialReason::UnverifiedIdentity }
    );
}

#[test]
fn risky_verified_requests_step_up() {
    let engine = PolicyEngine::new();
    let verified = IdentityStatus::Verified { method: AuthMethod::Password };
    let mut ctx = context(verified, Sensitivity::Restricted);
    assert_eq!(engine.evaluate_at(&ctx, 0), AccessDecision::Deny { reason: DenialReason::UnverifiedIdentity });
    ctx.device = Some(vantis::zero_trust::DevicePosture {
        device_id: "d".to_string(),
        platform: vantis::zero_trust::Platform::Linux,
        os_version: "1".to_string(),
        app_version: "1".to_string(),
        is_compliant: false,
        has_encryption: true,
        has_antivirus: true,
        last_scan: 0,
        risk_factors: Vec::new(),
    });
    assert_eq!(engine.evaluate_at(&ctx, 0), AccessDecision::StepUp { required_auth: AuthMethod::TOTP });
}

#[test]
fn sessions_expire_after_inactivity() {
    let mut sessions = SessionManager::new();
    let id = sessions.create_session("user".to_string(), "device".to_string());
    assert_eq!(id.len(), 36);
    assert!(sessions.has_session(&id));
    assert!(sessions.validate_session(&id));
    assert!(!sessions.validate_session("unknown"));
    let far_future = u64::MAX;
    assert!(!sessions.validate_session_at(&id, far_future));
    assert!(!sessions.has_session(&id));
    let id2 = sessions.create_session("u".to_string(), "d".to_string());
    sessions.terminate_session(&id2);
    assert!(!sessions.has_session(&id2));
}
