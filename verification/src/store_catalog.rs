//! The plugin store's catalog vocabulary: categories, platforms and
//! statuses of published plugins, their dependencies, and the findings of a
//! submission review.

use vstd::prelude::*;

use crate::text::owned;

verus! {

/// Settings of the plugin store.
#[derive(Debug, Clone)]
pub struct MarketplaceConfig {
    pub enabled: bool,
    pub api_url: String,
    /// Maximum plugin size in bytes.
    pub max_plugin_size: usize,
    pub require_review: bool,
    /// Auto-approve trusted developers.
    pub auto_approve_trusted: bool,
}

impl Default for MarketplaceConfig {
    fn default() -> (c: MarketplaceConfig)
        ensures
            c.enabled,
            c.api_url@ == "https://marketplace.vantis.app"@,
            c.max_plugin_size == 50 * 1024 * 1024,
            c.require_review,
            !c.auto_approve_trusted,
    {
        MarketplaceConfig {
            enabled: true,
            api_url: owned("https://marketplace.vantis.app"),
            max_plugin_size: 50 * 1024 * 1024,
            require_review: true,
            auto_approve_trusted: false,
        }
    }
}

/// Plugin category
#[derive(Debug, Clone, Copy, PartialEq, Eq, Structural)]
pub enum PluginCategory {
    VideoProcessing,
    AudioProcessing,
    Subtitles,
    UI,
    Playback,
    Streaming,
    Conversion,
    Metadata,
    Integration,
    Other,
}

/// Platform
#[derive(Debug, Clone, Copy, PartialEq, Eq, Structural)]
pub enum Platform {
    Windows,
    MacOS,
    Linux,
    All,
}

/// Plugin status
#[derive(Debug, Clone, Copy, PartialEq, Eq, Structural)]
pub enum PluginStatus {
    Draft,
    Pending,
    UnderReview,
    Approved,
    Rejected,
    Deprecated,
    Removed,
}

/// Plugin dependency
#[derive(Debug, Clone)]
pub struct PluginDependency {
    pub plugin_id: String,
    pub min_version: String,
    pub max_version: Option<String>,
    pub optional: bool,
}

/// Submission status
#[derive(Debug, Clone, Copy, PartialEq, Eq, Structural)]
pub enum SubmissionStatus {
    Pending,
    UnderReview,
    Approved,
    Rejected,
    Cancelled,
}

/// Plugin engines
#[derive(Debug, Clone)]
pub struct PluginEngines {
    pub vantis: String,
}

/// Review decision
#[derive(Debug, Clone, Copy, PartialEq, Eq, Structural)]
pub enum ReviewDecision {
    Approve,
    ApproveWithChanges,
    RequestChanges,
    Reject,
}

/// Vulnerability
#[derive(Debug, Clone)]
pub struct Vulnerability {
    pub severity: VulnerabilitySeverity,
    pub title: String,
    pub description: String,
    pub location: String,
    pub recommendation: String,
}

/// Vulnerability severity
#[derive(Debug, Clone, Copy, PartialEq, Eq, Structural)]
pub enum VulnerabilitySeverity {
    Critical,
    High,
    Medium,
    Low,
    Info,
}

/// Code issue
#[derive(Debug, Clone)]
pub struct CodeIssue {
    pub severity: IssueSeverity,
    pub rule: String,
    pub message: String,
    pub location: String,
}

/// Issue severity
#[derive(Debug, Clone, Copy, PartialEq, Eq, Structural)]
pub enum IssueSeverity {
    Error,
    Warning,
    Info,
}

/// Review issue
#[derive(Debug, Clone)]
pub struct ReviewIssue {
    pub id: String,
    pub severity: IssueSeverity,
    pub category: IssueCategory,
    pub description: String,
    pub location: Option<String>,
    pub recommendation: String,
}

/// Issue category
#[derive(Debug, Clone, Copy, PartialEq, Eq, Structural)]
pub enum IssueCategory {
    Security,
    Performance,
    Compatibility,
    Documentation,
    CodeStyle,
    Functionality,
    Other,
}


} // verus!
