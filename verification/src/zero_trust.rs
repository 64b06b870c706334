//! Zero-trust access decisions: a risk score drawn from identity, device,
//! location and resource; policies consulted from the highest priority
//! down; and sessions that expire after a period of inactivity.

use vstd::prelude::*;

use crate::clock::{epoch_millis, utc_now_seconds};
use crate::plugin::{random_uuid_text, v4_hyphenated_shape};
use crate::text::strings_equal;

verus! {

/// Authentication methods.
#[derive(Debug, Clone, PartialEq, Eq)]
pub enum AuthMethod {
    Password,
    TOTP,
    WebAuthn { device_id: String },
    OAuth { provider: String },
    Certificate { serial: String },
    Biometric { type_: BiometricType },
}

/// Kinds of biometric authentication.
#[derive(Debug, Clone, Copy, PartialEq, Eq, Structural)]
pub enum BiometricType {
    Fingerprint,
    FaceId,
    VoiceId,
}

/// How far a user's identity is verified.
#[derive(Debug, Clone, PartialEq, Eq)]
pub enum IdentityStatus {
    Unverified,
    Verified { method: AuthMethod },
    MfaCompleted { methods: Vec<AuthMethod> },
}

/// Platforms of a device.
#[derive(Debug, Clone, Copy, PartialEq, Eq, Structural)]
pub enum Platform {
    Windows,
    MacOS,
    Linux,
    IOS,
    Android,
    Web,
}

/// Things that make a device risky.
#[derive(Debug, Clone, Copy, PartialEq, Eq, Structural)]
pub enum RiskFactor {
    OutdatedOS,
    OutdatedApp,
    NoEncryption,
    NoAntivirus,
    RootedDevice,
    DebuggerDetected,
    EmulatorDetected,
}

/// What is known of the device a request comes from.
#[derive(Debug, Clone)]
pub struct DevicePosture {
    pub device_id: String,
    pub platform: Platform,
    pub os_version: String,
    pub app_version: String,
    pub is_compliant: bool,
    pub has_encryption: bool,
    pub has_antivirus: bool,
    /// When the device was last scanned, in milliseconds of the clock.
    pub last_scan: u64,
    pub risk_factors: Vec<RiskFactor>,
}

/// Where a request comes from.
#[derive(Debug, Clone)]
pub struct GeoLocation {
    /// The address, as text.
    pub ip: String,
    pub country: String,
    pub region: String,
    pub city: String,
    pub timezone: String,
    pub is_vpn: bool,
    pub is_proxy: bool,
    pub is_tor: bool,
}

/// Risk levels, from very low to critical.
#[derive(Debug, Clone, Copy, PartialEq, Eq, Structural)]
pub enum RiskScore {
    VeryLow,
    Low,
    Medium,
    High,
    VeryHigh,
    Critical,
}

/// Rank of a risk level: 0 for very low up to 5 for critical.
pub open spec fn risk_rank(r: RiskScore) -> u8 {
    match r {
        RiskScore::VeryLow => 0,
        RiskScore::Low => 1,
        RiskScore::Medium => 2,
        RiskScore::High => 3,
        RiskScore::VeryHigh => 4,
        RiskScore::Critical => 5,
    }
}

impl RiskScore {
    /// Rank: 0 for very low up to 5 for critical.
    pub fn rank(&self) -> (r: u8)
        ensures
            r == risk_rank(*self),
    {
        match self {
            RiskScore::VeryLow => 0,
            RiskScore::Low => 1,
            RiskScore::Medium => 2,
            RiskScore::High => 3,
            RiskScore::VeryHigh => 4,
            RiskScore::Critical => 5,
        }
    }
}

/// Kinds of resource.
#[derive(Debug, Clone, Copy, PartialEq, Eq, Structural)]
pub enum ResourceType {
    MediaFile,
    Playlist,
    Settings,
    Plugin,
    ApiEndpoint,
    SystemResource,
}

/// How sensitive a resource is.
#[derive(Debug, Clone, Copy, PartialEq, Eq, Structural)]
pub enum Sensitivity {
    Public,
    Internal,
    Confidential,
    Restricted,
}

/// A resource access is asked for.
#[derive(Debug, Clone)]
pub struct Resource {
    pub id: String,
    pub resource_type: ResourceType,
    pub sensitivity: Sensitivity,
    pub owner: String,
}

/// What is to be done with a resource.
#[derive(Debug, Clone, Copy, PartialEq, Eq, Structural)]
pub enum Action {
    Read,
    Write,
    Delete,
    Execute,
    Share,
    Admin,
}

/// Why access is denied.
#[derive(Debug, Clone, Copy, PartialEq, Eq, Structural)]
pub enum DenialReason {
    UnverifiedIdentity,
    NonCompliantDevice,
    SuspiciousLocation,
    HighRiskScore,
    InsufficientPrivileges,
    TimeRestricted,
    QuotaExceeded,
}

/// How a user is challenged.
#[derive(Debug, Clone, Copy, PartialEq, Eq, Structural)]
pub enum ChallengeMethod {
    MfaRequired,
    EmailVerification,
    ManagerApproval,
    SecurityQuestion,
}

/// Conditions attached to temporary access.
#[derive(Debug, Clone, Copy, PartialEq, Eq, Structural)]
pub enum Condition {
    AuditLogging,
    Watermarking,
    NoDownload,
    NoShare,
    SessionRecording,
}

/// The answer to an access request.
#[derive(Debug, Clone, PartialEq, Eq)]
pub enum AccessDecision {
    Allow,
    Deny { reason: DenialReason },
    Challenge { method: ChallengeMethod },
    StepUp { required_auth: AuthMethod },
    /// Access for a number of seconds, under conditions.
    TemporaryAccess { duration: u64, conditions: Vec<Condition> },
}

/// Everything an access decision looks at.
#[derive(Debug)]
pub struct ZeroTrustContext {
    pub identity: IdentityStatus,
    pub device: Option<DevicePosture>,
    pub location: Option<GeoLocation>,
    pub resource: Resource,
    pub action: Action,
    /// When the request was made, in milliseconds of the clock.
    pub timestamp: u64,
    pub session_id: String,
}

/// Which resources a policy covers.
#[derive(Debug)]
pub enum ResourceMatcher {
    All,
    Type(ResourceType),
    Sensitivity(Sensitivity),
    Id(String),
    Owner(String),
}

/// A condition a policy asks for.
#[derive(Debug)]
pub enum PolicyCondition {
    IdentityVerified,
    MfaCompleted,
    DeviceCompliant,
    LocationAllowed { countries: Vec<String> },
    /// Hours of the day (UTC), both ends included.
    TimeWindow { start: u8, end: u8 },
    RiskScoreBelow(RiskScore),
    Custom(String),
}

/// What a policy does when it applies.
#[derive(Debug, Clone, Copy, PartialEq, Eq, Structural)]
pub enum PolicyEffect {
    Allow,
    Deny,
    Challenge(ChallengeMethod),
}

/// An access policy.
#[derive(Debug)]
pub struct Policy {
    pub id: String,
    pub name: String,
    pub description: String,
    pub resource_matcher: ResourceMatcher,
    pub conditions: Vec<PolicyCondition>,
    pub effect: PolicyEffect,
    /// Policies with a higher priority are consulted first.
    pub priority: u8,
}

/// The larger of two ranks.
pub open spec fn max_rank(a: u8, b: u8) -> u8 {
    if a >= b { a } else { b }
}

/// The risk of a request, as a rank: critical for an unverified identity;
/// at least high for a non-compliant device; at least medium for a device
/// with risk factors, a VPN, proxy or Tor location, or a restricted resource.
pub open spec fn risk_of(ctx: ZeroTrustContext) -> u8 {
    let identity = if ctx.identity == IdentityStatus::Unverified { 5u8 } else { 0u8 };
    let device = match ctx.device {
        Some(d) => max_rank(
            if !d.is_compliant { 3u8 } else { 0u8 },
            if d.risk_factors@.len() > 0 { 2u8 } else { 0u8 },
        ),
        None => 0u8,
    };
    let location = match ctx.location {
        Some(l) => if l.is_vpn || l.is_proxy || l.is_tor { 2u8 } else { 0u8 },
        None => 0u8,
    };
    let resource = if ctx.resource.sensitivity == Sensitivity::Restricted { 2u8 } else { 0u8 };
    max_rank(max_rank(identity, device), max_rank(location, resource))
}

/// The risk level of a rank.
pub open spec fn risk_of_rank(r: u8) -> RiskScore {
    if r == 0 {
        RiskScore::VeryLow
    } else if r == 1 {
        RiskScore::Low
    } else if r == 2 {
        RiskScore::Medium
    } else if r == 3 {
        RiskScore::High
    } else if r == 4 {
        RiskScore::VeryHigh
    } else {
        RiskScore::Critical
    }
}

/// Whether a policy covers the request's resource.
pub open spec fn policy_matches(ctx: ZeroTrustContext, p: Policy) -> bool {
    match p.resource_matcher {
        ResourceMatcher::All => true,
        ResourceMatcher::Type(t) => ctx.resource.resource_type == t,
        ResourceMatcher::Sensitivity(s) => ctx.resource.sensitivity == s,
        ResourceMatcher::Id(id) => ctx.resource.id@ == id@,
        ResourceMatcher::Owner(owner) => ctx.resource.owner@ == owner@,
    }
}

/// Whether a condition holds for the request at a risk rank and hour.
pub open spec fn condition_holds(ctx: ZeroTrustContext, c: PolicyCondition, risk: u8, hour: u8) -> bool {
    match c {
        PolicyCondition::IdentityVerified => ctx.identity is Verified,
        PolicyCondition::MfaCompleted => ctx.identity is MfaCompleted,
        PolicyCondition::DeviceCompliant => ctx.device matches Some(d) && d.is_compliant,
        PolicyCondition::LocationAllowed { countries } => ctx.location matches Some(l)
            && exists|i: int| 0 <= i < countries@.len() && (#[trigger] countries@[i])@ == l.country@,
        PolicyCondition::TimeWindow { start, end } => start <= hour && hour <= end,
        PolicyCondition::RiskScoreBelow(max) => risk < risk_rank(max),
        PolicyCondition::Custom(_) => true,
    }
}

/// Whether a policy applies: it covers the resource and all its conditions hold.
pub open spec fn policy_applies(ctx: ZeroTrustContext, p: Policy, risk: u8, hour: u8) -> bool {
    policy_matches(ctx, p) && forall|j: int| 0 <= j < p.conditions@.len()
        ==> condition_holds(ctx, #[trigger] p.conditions@[j], risk, hour)
}

/// The decision a policy's effect gives.
pub open spec fn effect_decision(e: PolicyEffect) -> AccessDecision {
    match e {
        PolicyEffect::Allow => AccessDecision::Allow,
        PolicyEffect::Deny => AccessDecision::Deny { reason: DenialReason::InsufficientPrivileges },
        PolicyEffect::Challenge(m) => AccessDecision::Challenge { method: m },
    }
}

/// The decision when no policy applies: an unverified identity is denied;
/// otherwise a high risk asks for a one-time password; otherwise the
/// request is denied.
pub open spec fn fallback_decision(ctx: ZeroTrustContext, risk: u8) -> AccessDecision {
    if ctx.identity == IdentityStatus::Unverified {
        AccessDecision::Deny { reason: DenialReason::UnverifiedIdentity }
    } else if risk >= 3 {
        AccessDecision::StepUp { required_auth: AuthMethod::TOTP }
    } else {
        AccessDecision::Deny { reason: DenialReason::UnverifiedIdentity }
    }
}

/// The decision for a request at an hour, given the policies in the order
/// they are consulted: the first policy that applies decides.
pub open spec fn decision(policies: Seq<Policy>, ctx: ZeroTrustContext, hour: u8) -> AccessDecision {
    let risk = risk_of(ctx);
    if exists|i: int| 0 <= i < policies.len() && policy_applies(ctx, #[trigger] policies[i], risk, hour) {
        let i = choose|i: int| 0 <= i < policies.len() && policy_applies(ctx, #[trigger] policies[i], risk, hour)
            && forall|j: int| 0 <= j < i ==> !policy_applies(ctx, #[trigger] policies[j], risk, hour);
        effect_decision(policies[i].effect)
    } else {
        fallback_decision(ctx, risk)
    }
}

/// The hour of the day (UTC) that `secs` seconds after the Unix epoch
/// fall in.
pub open spec fn utc_hour_of(secs: i64) -> int {
    (secs % 86400) / 3600
}

/// The hour of the day (UTC) of a time given in seconds since the Unix
/// epoch.
fn hour_of(secs: i64) -> (h: u8)
    ensures
        h == utc_hour_of(secs),
        h < 24,
{
    let r: i64 = if secs >= 0 {
        secs % 86400
    } else {
        let m: i64 = (0 - (secs + 1)) % 86400;
        86399 - m
    };
    assert(r == secs % 86400) by (nonlinear_arith)
        requires
            secs >= 0 ==> r == secs % 86400,
            secs < 0 ==> r == 86399 - (-(secs + 1)) % 86400,
    {
        if secs < 0 {
            let k = -(secs + 1);
            let q = k / 86400;
            let m = k % 86400;
            assert(k == q * 86400 + m);
            assert(secs == (-q - 1) * 86400 + (86399 - m));
        }
    }
    (r / 3600) as u8
}

/// The hour of the day (UTC) now, by the system clock.
fn current_utc_hour() -> (h: u8)
    ensures
        h < 24,
{
    hour_of(utc_now_seconds())
}

/// The larger of two ranks.
fn max_of(a: u8, b: u8) -> (r: u8)
    ensures
        r == max_rank(a, b),
{
    if a >= b { a } else { b }
}

/// Whether a list of texts holds the given text.
fn holds_text(list: &Vec<String>, s: &String) -> (r: bool)
    ensures
        r == exists|i: int| 0 <= i < list@.len() && (#[trigger] list@[i])@ == s@,
{
    let mut i: usize = 0;
    while i < list.len()
        invariant
            i <= list@.len(),
            forall|j: int| 0 <= j < i ==> (#[trigger] list@[j])@ != s@,
        decreases list@.len() - i,
    {
        if strings_equal(&list[i], s) {
            return true;
        }
        i = i + 1;
    }
    false
}

/// Makes access decisions from policies.
pub struct PolicyEngine {
    policies: Vec<Policy>,
    default_decision: AccessDecision,
}

impl PolicyEngine {
    /// The policies, in the order they are consulted.
    pub closed spec fn policy_list(&self) -> Seq<Policy> {
        self.policies@
    }

    /// Internal consistency: policies ordered by priority, highest first.
    pub closed spec fn wf(&self) -> bool {
        &&& forall|i: int, j: int| 0 <= i < j < self.policies@.len()
            ==> (#[trigger] self.policies@[i]).priority >= (#[trigger] self.policies@[j]).priority
        &&& self.default_decision == AccessDecision::Deny { reason: DenialReason::UnverifiedIdentity }
    }

    /// An engine without policies, denying by default.
    pub fn new() -> (e: PolicyEngine)
        ensures
            e.wf(),
            e.policy_list().len() == 0,
    {
        PolicyEngine {
            policies: Vec::new(),
            default_decision: AccessDecision::Deny { reason: DenialReason::UnverifiedIdentity },
        }
    }

    /// Adds a policy after every policy of the same or a higher priority and
    /// before those of a lower one.
    pub fn add_policy(&mut self, policy: Policy)
        requires
            old(self).wf(),
        ensures
            final(self).wf(),
            exists|k: int| 0 <= k <= old(self).policy_list().len()
                && final(self).policy_list() == old(self).policy_list().insert(k, policy)
                && (forall|j: int| 0 <= j < k ==> (#[trigger] old(self).policy_list()[j]).priority >= policy.priority)
                && (forall|j: int| k <= j < old(self).policy_list().len() ==> (#[trigger] old(self).policy_list()[j]).priority < policy.priority),
    {
        let mut k: usize = 0;
        while k < self.policies.len() && self.policies[k].priority >= policy.priority
            invariant
                k <= self.policies@.len(),
                self.policies@ == old(self).policies@,
                forall|j: int| 0 <= j < k ==> (#[trigger] self.policies@[j]).priority >= policy.priority,
            decreases self.policies@.len() - k,
        {
            k = k + 1;
        }
        proof {
            let v = self.policies@;
            assert forall|j: int| k <= j < v.len() implies (#[trigger] v[j]).priority < policy.priority by {
                if j > k {
                    assert(v[k as int].priority >= v[j].priority);
                }
            }
        }
        let ghost prio = policy.priority;
        let ghost before = self.policies@;
        let ghost p = policy;
        self.policies.insert(k, policy);
        proof {
            let v = self.policies@;
            assert forall|a: int, b: int| 0 <= a < b < v.len() implies (#[trigger] v[a]).priority >= (#[trigger] v[b]).priority by {
                let a0 = if a < k { a } else if a == k { -1 } else { a - 1 };
                let b0 = if b < k { b } else if b == k { -1 } else { b - 1 };
                if a0 >= 0 && b0 >= 0 {
                    assert(v[a] == before[a0] && v[b] == before[b0]);
                }
            }
            let kk = k as int;
            assert(v[kk] == p);
            assert(p == policy);
            assert(before == old(self).policy_list());
            assert(0 <= kk <= old(self).policy_list().len()
                && self.policy_list() == old(self).policy_list().insert(kk, policy)
                && (forall|j: int| 0 <= j < kk ==> (#[trigger] old(self).policy_list()[j]).priority >= policy.priority)
                && (forall|j: int| kk <= j < old(self).policy_list().len() ==> (#[trigger] old(self).policy_list()[j]).priority < policy.priority));
            assert(0 <= kk <= before.len() && v == before.insert(kk, p)
                && (forall|j: int| 0 <= j < kk ==> (#[trigger] before[j]).priority >= prio)
                && (forall|j: int| kk <= j < before.len() ==> (#[trigger] before[j]).priority < prio));
        }
    }

    /// The risk rank of a request.
    fn calculate_risk(&self, ctx: &ZeroTrustContext) -> (r: u8)
        ensures
            r == risk_of(*ctx),
    {
        let identity: u8 = match ctx.identity {
            IdentityStatus::Unverified => 5,
            _ => 0,
        };
        let device: u8 = match &ctx.device {
            Some(d) => max_of(if !d.is_compliant { 3 } else { 0 }, if d.risk_factors.len() > 0 { 2 } else { 0 }),
            None => 0,
        };
        let location: u8 = match &ctx.location {
            Some(l) => if l.is_vpn || l.is_proxy || l.is_tor { 2 } else { 0 },
            None => 0,
        };
        let resource: u8 = if ctx.resource.sensitivity == Sensitivity::Restricted { 2 } else { 0 };
        max_of(max_of(identity, device), max_of(location, resource))
    }

    /// Whether a policy covers the request's resource.
    fn matches_policy(&self, ctx: &ZeroTrustContext, policy: &Policy) -> (r: bool)
        ensures
            r == policy_matches(*ctx, *policy),
    {
        match &policy.resource_matcher {
            ResourceMatcher::All => true,
            ResourceMatcher::Type(t) => ctx.resource.resource_type == *t,
            ResourceMatcher::Sensitivity(s) => ctx.resource.sensitivity == *s,
            ResourceMatcher::Id(id) => strings_equal(&ctx.resource.id, id),
            ResourceMatcher::Owner(owner) => strings_equal(&ctx.resource.owner, owner),
        }
    }

    /// Whether every condition of a policy holds.
    fn evaluate_conditions(&self, ctx: &ZeroTrustContext, policy: &Policy, risk: u8, hour: u8) -> (r: bool)
        ensures
            r == forall|j: int| 0 <= j < policy.conditions@.len()
                ==> condition_holds(*ctx, #[trigger] policy.conditions@[j], risk, hour),
    {
        let mut i: usize = 0;
        while i < policy.conditions.len()
            invariant
                i <= policy.conditions@.len(),
                forall|j: int| 0 <= j < i ==> condition_holds(*ctx, #[trigger] policy.conditions@[j], risk, hour),
            decreases policy.conditions@.len() - i,
        {
            let holds = match &policy.conditions[i] {
                PolicyCondition::IdentityVerified => matches!(ctx.identity, IdentityStatus::Verified { .. }),
                PolicyCondition::MfaCompleted => matches!(ctx.identity, IdentityStatus::MfaCompleted { .. }),
                PolicyCondition::DeviceCompliant => match &ctx.device {
                    Some(d) => d.is_compliant,
                    None => false,
                },
                PolicyCondition::LocationAllowed { countries } => match &ctx.location {
                    Some(l) => holds_text(countries, &l.country),
                    None => false,
                },
                PolicyCondition::TimeWindow { start, end } => *start <= hour && hour <= *end,
                PolicyCondition::RiskScoreBelow(max) => risk < max.rank(),
                PolicyCondition::Custom(_) => true,
            };
            if !holds {
                return false;
            }
            i = i + 1;
        }
        true
    }

    /// The decision for a request at the given hour of the day (UTC): the
    /// first policy, from the highest priority down, that covers the
    /// resource and whose conditions all hold decides; when none does, an
    /// unverified identity is denied, a high risk asks for a one-time
    /// password, and anything else is denied.
    pub fn evaluate_at(&self, ctx: &ZeroTrustContext, hour: u8) -> (d: AccessDecision)
        requires
            self.wf(),
        ensures
            d == decision(self.policy_list(), *ctx, hour),
    {
        let risk = self.calculate_risk(ctx);
        let mut i: usize = 0;
        while i < self.policies.len()
            invariant
                i <= self.policies@.len(),
                risk == risk_of(*ctx),
                forall|j: int| 0 <= j < i ==> !policy_applies(*ctx, #[trigger] self.policies@[j], risk, hour),
            decreases self.policies@.len() - i,
        {
            let policy = &self.policies[i];
            if self.matches_policy(ctx, policy) && self.evaluate_conditions(ctx, policy, risk, hour) {
                proof {
                    let v = self.policies@;
                    let k = i as int;
                    assert(policy_applies(*ctx, v[k], risk, hour));
                    let c = choose|c: int| 0 <= c < v.len() && policy_applies(*ctx, #[trigger] v[c], risk, hour)
                        && forall|j: int| 0 <= j < c ==> !policy_applies(*ctx, #[trigger] v[j], risk, hour);
                    if c < k {
                    } else if c > k {
                        assert(!policy_applies(*ctx, v[k], risk, hour));
                    }
                    assert(c == k);
                }
                return match policy.effect {
                    PolicyEffect::Allow => AccessDecision::Allow,
                    PolicyEffect::Deny => AccessDecision::Deny { reason: DenialReason::InsufficientPrivileges },
                    PolicyEffect::Challenge(method) => AccessDecision::Challenge { method },
                };
            }
            i = i + 1;
        }
        if matches!(ctx.identity, IdentityStatus::Unverified) {
            return AccessDecision::Deny { reason: DenialReason::UnverifiedIdentity };
        }
        if risk >= 3 {
            return AccessDecision::StepUp { required_auth: AuthMethod::TOTP };
        }
        AccessDecision::Deny { reason: DenialReason::UnverifiedIdentity }
    }

    /// The decision for a request now: as `evaluate_at` at the current hour
    /// of the day (UTC).
    pub fn evaluate(&self, ctx: &ZeroTrustContext) -> (d: AccessDecision)
        requires
            self.wf(),
        ensures
            exists|h: u8| h < 24 && d == decision(self.policy_list(), *ctx, h),
    {
        let hour = current_utc_hour();
        self.evaluate_at(ctx, hour)
    }
}

/// With no policy, an unverified identity is always denied.
pub proof fn law_unverified_denied_without_policies(ctx: ZeroTrustContext, hour: u8)
    requires
        ctx.identity == IdentityStatus::Unverified,
    ensures
        decision(Seq::empty(), ctx, hour) == (AccessDecision::Deny { reason: DenialReason::UnverifiedIdentity }),
{
}

/// An unverified identity always carries the critical risk.
pub proof fn law_unverified_is_critical(ctx: ZeroTrustContext)
    requires
        ctx.identity == IdentityStatus::Unverified,
    ensures
        risk_of_rank(risk_of(ctx)) == RiskScore::Critical,
{
}

/// A policy that covers every resource without conditions decides every
/// request when it is consulted first.
pub proof fn law_first_unconditional_policy_decides(policies: Seq<Policy>, ctx: ZeroTrustContext, hour: u8)
    requires
        policies.len() > 0,
        policies[0].resource_matcher is All,
        policies[0].conditions@.len() == 0,
    ensures
        decision(policies, ctx, hour) == effect_decision(policies[0].effect),
{
    let risk = risk_of(ctx);
    assert(policy_applies(ctx, policies[0], risk, hour));
    let c = choose|c: int| 0 <= c < policies.len() && policy_applies(ctx, #[trigger] policies[c], risk, hour)
        && forall|j: int| 0 <= j < c ==> !policy_applies(ctx, #[trigger] policies[j], risk, hour);
    if c > 0 {
        assert(!policy_applies(ctx, policies[0], risk, hour));
    }
}

/// A policy that asks for a compliant device applies only to a request
/// that brings a device reporting itself compliant.
pub proof fn law_device_compliance_required(ctx: ZeroTrustContext, p: Policy, risk: u8, hour: u8, j: int)
    requires
        0 <= j < p.conditions@.len(),
        p.conditions@[j] is DeviceCompliant,
        policy_applies(ctx, p, risk, hour),
    ensures
        ctx.device matches Some(d) && d.is_compliant,
{
    assert(condition_holds(ctx, p.conditions@[j], risk, hour));
}

/// A policy applies only to a request for a resource it covers and only
/// where each of its conditions is met by the request: a verified identity,
/// completed multi-factor authentication, a location in one of the listed
/// countries, an hour inside the window, a risk below the bound.
pub proof fn law_policy_conditions_required(ctx: ZeroTrustContext, p: Policy, risk: u8, hour: u8, j: int)
    requires
        0 <= j < p.conditions@.len(),
        policy_applies(ctx, p, risk, hour),
    ensures
        p.resource_matcher matches ResourceMatcher::Type(t) ==> ctx.resource.resource_type == t,
        p.resource_matcher matches ResourceMatcher::Sensitivity(x) ==> ctx.resource.sensitivity == x,
        p.resource_matcher matches ResourceMatcher::Id(id) ==> ctx.resource.id@ == id@,
        p.resource_matcher matches ResourceMatcher::Owner(o) ==> ctx.resource.owner@ == o@,
        p.conditions@[j] is IdentityVerified ==> ctx.identity is Verified,
        p.conditions@[j] is MfaCompleted ==> ctx.identity is MfaCompleted,
        p.conditions@[j] matches PolicyCondition::LocationAllowed { countries } ==> ctx.location matches Some(l)
            && exists|i: int| 0 <= i < countries@.len() && (#[trigger] countries@[i])@ == l.country@,
        p.conditions@[j] matches PolicyCondition::TimeWindow { start, end } ==> start <= hour <= end,
        p.conditions@[j] matches PolicyCondition::RiskScoreBelow(max) ==> risk < risk_rank(max),
{
    assert(condition_holds(ctx, p.conditions@[j], risk, hour));
}

/// The risk of a request: critical for an unverified identity, at least
/// high for a device that is not compliant, at least medium for a device
/// with risk factors, a VPN, proxy or Tor location or a restricted
/// resource, and very low for a verified request from a compliant device
/// without risk factors, from a plain location, for a resource that is not
/// restricted.
pub proof fn law_risk_of_request(ctx: ZeroTrustContext)
    ensures
        risk_of(ctx) <= 5,
        ctx.identity is Unverified ==> risk_of(ctx) == 5,
        (ctx.device matches Some(d) && !d.is_compliant) ==> risk_of(ctx) >= 3,
        (ctx.device matches Some(d) && d.risk_factors@.len() > 0) ==> risk_of(ctx) >= 2,
        (ctx.location matches Some(l) && (l.is_vpn || l.is_proxy || l.is_tor)) ==> risk_of(ctx) >= 2,
        ctx.resource.sensitivity == Sensitivity::Restricted ==> risk_of(ctx) >= 2,
        (!(ctx.identity is Unverified) && (ctx.device matches Some(d) ==> d.is_compliant
            && d.risk_factors@.len() == 0) && (ctx.location matches Some(l) ==> !l.is_vpn && !l.is_proxy
            && !l.is_tor) && ctx.resource.sensitivity != Sensitivity::Restricted) ==> risk_of(ctx) == 0,
{
}

/// Where no policy applies, a verified request of high risk or more is
/// asked to step up with a one-time code.
pub proof fn law_high_risk_steps_up(policies: Seq<Policy>, ctx: ZeroTrustContext, hour: u8)
    requires
        !(ctx.identity is Unverified),
        risk_of(ctx) >= 3,
        forall|i: int| 0 <= i < policies.len() ==> !policy_applies(ctx, #[trigger] policies[i], risk_of(ctx), hour),
    ensures
        decision(policies, ctx, hour) == (AccessDecision::StepUp { required_auth: AuthMethod::TOTP }),
{
}

/// Where every policy asks for a compliant device and the request brings
/// none, or one that is not compliant, no policy decides: the request gets
/// the decision the request's risk alone gives.
pub proof fn law_noncompliant_device_matches_no_policy(policies: Seq<Policy>, ctx: ZeroTrustContext, hour: u8)
    requires
        forall|i: int|
            0 <= i < policies.len() ==> exists|j: int|
                0 <= j < (#[trigger] policies[i]).conditions@.len() && policies[i].conditions@[j] is DeviceCompliant,
        !(ctx.device matches Some(d) && d.is_compliant),
    ensures
        decision(policies, ctx, hour) == fallback_decision(ctx, risk_of(ctx)),
{
    let risk = risk_of(ctx);
    assert forall|i: int| 0 <= i < policies.len() implies !policy_applies(ctx, #[trigger] policies[i], risk, hour) by {
        let j = choose|j: int| 0 <= j < policies[i].conditions@.len() && policies[i].conditions@[j] is DeviceCompliant;
        if policy_applies(ctx, policies[i], risk, hour) {
            law_device_compliance_required(ctx, policies[i], risk, hour, j);
        }
    }
}

/// A user session.
#[derive(Debug)]
pub struct Session {
    pub id: String,
    pub user_id: String,
    /// Creation time, in milliseconds since the Unix epoch.
    pub created_at: u64,
    /// Last activity, in milliseconds since the Unix epoch.
    pub last_activity: u64,
    pub device_id: String,
    pub risk_score: RiskScore,
    pub permissions: Vec<String>,
}

/// The current time in milliseconds since the Unix epoch (0 before it).
fn now_millis() -> u64 {
    match epoch_millis() {
        Some(ms) => ms as u64,
        None => 0,
    }
}

/// Sessions that expire after a period without activity.
pub struct SessionManager {
    sessions: Vec<Session>,
    /// Longest inactivity a session survives, in milliseconds.
    max_session_duration: u64,
}

/// Position of the session with the given identifier, if any.
pub open spec fn session_position(sessions: Seq<Session>, id: Seq<char>) -> Option<int> {
    if exists|i: int| 0 <= i < sessions.len() && (#[trigger] sessions[i]).id@ == id {
        Some(choose|i: int| 0 <= i < sessions.len() && (#[trigger] sessions[i]).id@ == id)
    } else {
        None
    }
}

impl SessionManager {
    /// The open sessions.
    pub closed spec fn session_list(&self) -> Seq<Session> {
        self.sessions@
    }

    /// Longest inactivity a session survives, in milliseconds.
    pub closed spec fn max_idle(&self) -> u64 {
        self.max_session_duration
    }

    /// Internal consistency: one session per identifier.
    pub closed spec fn wf(&self) -> bool {
        forall|i: int, j: int| 0 <= i < j < self.sessions@.len()
            ==> (#[trigger] self.sessions@[i]).id@ != (#[trigger] self.sessions@[j]).id@
    }

    /// A manager without sessions whose sessions survive eight hours of inactivity.
    pub fn new() -> (m: SessionManager)
        ensures
            m.wf(),
            m.session_list().len() == 0,
            m.max_idle() == 8 * 60 * 60 * 1000,
    {
        SessionManager { sessions: Vec::new(), max_session_duration: 8 * 60 * 60 * 1000 }
    }

    /// Position of a session.
    fn position(&self, session_id: &str) -> (r: Option<usize>)
        requires
            self.wf(),
        ensures
            match session_position(self.sessions@, session_id@) {
                Some(i) => r matches Some(k) && k as int == i,
                None => r is None,
            },
    {
        let mut i: usize = 0;
        while i < self.sessions.len()
            invariant
                i <= self.sessions@.len(),
                self.wf(),
                forall|j: int| 0 <= j < i ==> (#[trigger] self.sessions@[j]).id@ != session_id@,
            decreases self.sessions@.len() - i,
        {
            if crate::text::string_equals_str(&self.sessions[i].id, session_id) {
                proof {
                    let v = self.sessions@;
                    let k = i as int;
                    let c = choose|c: int| 0 <= c < v.len() && (#[trigger] v[c]).id@ == session_id@;
                    if c != k {
                        if c < k {
                            assert(v[c].id@ != v[k].id@);
                        } else {
                            assert(v[k].id@ != v[c].id@);
                        }
                    }
                }
                return Some(i);
            }
            i = i + 1;
        }
        None
    }

    /// Checks a session at the given time (milliseconds since the Unix
    /// epoch). A session idle for longer than the limit is removed and
    /// fails; a live one has its activity time set to `now` and passes; an
    /// unknown one fails.
    pub fn validate_session_at(&mut self, session_id: &str, now: u64) -> (r: bool)
        requires
            old(self).wf(),
        ensures
            final(self).wf(),
            final(self).max_idle() == old(self).max_idle(),
            match session_position(old(self).session_list(), session_id@) {
                None => !r && final(self).session_list() == old(self).session_list(),
                Some(i) => {
                    let s = old(self).session_list()[i];
                    let idle: int = if now >= s.last_activity { now - s.last_activity } else { 0 };
                    if idle > old(self).max_idle() {
                        !r && final(self).session_list() == old(self).session_list().remove(i)
                    } else {
                        r && final(self).session_list() == old(self).session_list().update(
                            i,
                            Session { last_activity: now, ..s },
                        )
                    }
                },
            },
    {
        match self.position(session_id) {
            None => false,
            Some(i) => {
                let last = self.sessions[i].last_activity;
                let idle: u64 = if now >= last { now - last } else { 0 };
                let ghost before = self.sessions@;
                if idle > self.max_session_duration {
                    self.sessions.remove(i);
                    proof {
                        let v = self.sessions@;
                        assert forall|a: int, b: int| 0 <= a < b < v.len()
                            implies (#[trigger] v[a]).id@ != (#[trigger] v[b]).id@ by {
                            let a0 = if a < i { a } else { a + 1 };
                            let b0 = if b < i { b } else { b + 1 };
                            assert(v[a] == before[a0] && v[b] == before[b0]);
                        }
                        assert(session_position(old(self).session_list(), session_id@) == Some(i as int));
                        assert(self.session_list() == old(self).session_list().remove(i as int));
                    }
                    false
                } else {
                    let mut s = self.sessions.remove(i);
                    s.last_activity = now;
                    self.sessions.insert(i, s);
                    proof {
                        let v = self.sessions@;
                        assert(v =~= before.update(i as int, Session { last_activity: now, ..before[i as int] }));
                        assert forall|a: int, b: int| 0 <= a < b < v.len()
                            implies (#[trigger] v[a]).id@ != (#[trigger] v[b]).id@ by {
                            assert(v[a].id == before[a].id && v[b].id == before[b].id);
                        }
                    }
                    true
                }
            },
        }
    }

    /// Checks a session now; see `validate_session_at`.
    pub fn validate_session(&mut self, session_id: &str) -> (r: bool)
        requires
            old(self).wf(),
        ensures
            final(self).wf(),
            final(self).max_idle() == old(self).max_idle(),
            session_position(old(self).session_list(), session_id@) is None ==> !r,
    {
        let now = now_millis();
        self.validate_session_at(session_id, now)
    }

    /// Opens a session with a fresh random identifier and returns the
    /// identifier; the session starts at a low risk without permissions.
    pub fn create_session(&mut self, user_id: String, device_id: String) -> (id: String)
        requires
            old(self).wf(),
        ensures
            final(self).wf(),
            final(self).max_idle() == old(self).max_idle(),
            v4_hyphenated_shape(id@),
            session_position(old(self).session_list(), id@) is None ==> {
                &&& final(self).session_list().len() == old(self).session_list().len() + 1
                &&& final(self).session_list().last().id@ == id@
                &&& final(self).session_list().last().user_id == user_id
                &&& final(self).session_list().last().device_id == device_id
                &&& final(self).session_list().last().risk_score == RiskScore::Low
                &&& final(self).session_list().last().permissions@.len() == 0
                &&& final(self).session_list().drop_last() == old(self).session_list()
            },
    {
        let session_id = random_uuid_text();
        let now = now_millis();
        let session = Session {
            id: session_id.clone(),
            user_id,
            created_at: now,
            last_activity: now,
            device_id,
            risk_score: RiskScore::Low,
            permissions: Vec::new(),
        };
        match self.position(session_id.as_str()) {
            Some(i) => {
                let ghost before = self.sessions@;
                self.sessions.set(i, session);
                proof {
                    let v = self.sessions@;
                    assert forall|a: int, b: int| 0 <= a < b < v.len()
                        implies (#[trigger] v[a]).id@ != (#[trigger] v[b]).id@ by {
                        if a != i && b != i {
                            assert(v[a] == before[a] && v[b] == before[b]);
                        } else if a == i {
                            assert(v[b] == before[b]);
                        } else {
                            assert(v[a] == before[a]);
                        }
                    }
                }
            },
            None => {
                let ghost before = self.sessions@;
                self.sessions.push(session);
                proof {
                    let v = self.sessions@;
                    assert(v.drop_last() =~= before);
                    assert forall|a: int, b: int| 0 <= a < b < v.len()
                        implies (#[trigger] v[a]).id@ != (#[trigger] v[b]).id@ by {
                        if b < before.len() {
                            assert(v[a] == before[a] && v[b] == before[b]);
                        } else {
                            assert(v[a] == before[a]);
                        }
                    }
                }
            },
        }
        session_id
    }

    /// Closes a session; an unknown identifier changes nothing.
    pub fn terminate_session(&mut self, session_id: &str)
        requires
            old(self).wf(),
        ensures
            final(self).wf(),
            final(self).max_idle() == old(self).max_idle(),
            match session_position(old(self).session_list(), session_id@) {
                Some(i) => final(self).session_list() == old(self).session_list().remove(i),
                None => final(self).session_list() == old(self).session_list(),
            },
    {
        match self.position(session_id) {
            Some(i) => {
                let ghost before = self.sessions@;
                self.sessions.remove(i);
                proof {
                    let v = self.sessions@;
                    assert forall|a: int, b: int| 0 <= a < b < v.len()
                        implies (#[trigger] v[a]).id@ != (#[trigger] v[b]).id@ by {
                        let a0 = if a < i { a } else { a + 1 };
                        let b0 = if b < i { b } else { b + 1 };
                        assert(v[a] == before[a0] && v[b] == before[b0]);
                    }
                }
            },
            None => {},
        }
    }

    /// Whether a session with the given identifier is open.
    pub fn has_session(&self, session_id: &str) -> (r: bool)
        requires
            self.wf(),
        ensures
            r == session_position(self.session_list(), session_id@) is Some,
    {
        self.position(session_id).is_some()
    }
}

} // verus!
