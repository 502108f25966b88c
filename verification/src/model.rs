//! The values that an evaluation receives and returns, each with the
//! mathematical value that contracts speak of.

use crate::ecosystem::CompatibilityScore;
use std::collections::HashMap;
use vstd::prelude::*;

verus! {

/// `serde_json::Value`, a JSON value of any shape. It is carried through and
/// never looked into, so nothing is claimed of what it holds.
#[verifier::external_type_specification]
#[verifier::external_body]
pub struct ExJsonValue(serde_json::Value);

/// What kind of mutation a change makes to its file.
#[derive(Debug, Clone, Copy, PartialEq, Eq, Structural)]
pub enum ChangeType {
    Add,
    Modify,
    Delete,
}

/// How severe the consequences of an upgrade are judged to be.
#[derive(Debug, Clone, Copy, PartialEq, Eq, Structural)]
pub enum RiskLevel {
    Low,
    Medium,
    High,
    Critical,
}

/// How much an upgrade is expected to cost in performance.
#[derive(Debug, Clone, Copy, PartialEq, Eq, Structural)]
pub enum PerformanceImpact {
    NoImpact,
    Low,
    Medium,
    High,
}

/// What went wrong when an evaluation fails.
#[derive(Debug, Clone, Copy, PartialEq, Eq, Structural)]
pub enum ErrorType {
    Validation,
    Compatibility,
    Security,
    Performance,
    Network,
    Internal,
}

impl RiskLevel {
    /// Position of the level in the order `Low < Medium < High < Critical`.
    pub open spec fn rank(self) -> nat {
        match self {
            RiskLevel::Low => 0,
            RiskLevel::Medium => 1,
            RiskLevel::High => 2,
            RiskLevel::Critical => 3,
        }
    }

    /// The higher of two levels; `self` where they are the same.
    pub open spec fn raised(self, floor: RiskLevel) -> RiskLevel {
        if self.rank() >= floor.rank() {
            self
        } else {
            floor
        }
    }

    /// This level, or `floor` where that is higher: a level is never lowered.
    pub fn raised_to(self, floor: RiskLevel) -> (level: RiskLevel)
        ensures
            level == self.raised(floor),
    {
        match (self, floor) {
            (RiskLevel::Critical, _) | (_, RiskLevel::Critical) => RiskLevel::Critical,
            (RiskLevel::High, _) | (_, RiskLevel::High) => RiskLevel::High,
            (RiskLevel::Medium, _) | (_, RiskLevel::Medium) => RiskLevel::Medium,
            _ => RiskLevel::Low,
        }
    }
}

/// A proposed upgrade of one package in one repository.
#[derive(Debug, Clone)]
pub struct UpgradeRequest {
    pub repository: String,
    pub ecosystem: String,
    pub package_name: String,
    pub current_version: String,
    pub target_version: String,
    pub metadata: HashMap<String, serde_json::Value>,
}

/// The mathematical value of an [`UpgradeRequest`].
pub struct RequestView {
    pub repository: Seq<char>,
    pub ecosystem: Seq<char>,
    pub package_name: Seq<char>,
    pub current_version: Seq<char>,
    pub target_version: Seq<char>,
    pub metadata: Map<String, serde_json::Value>,
}

impl View for UpgradeRequest {
    type V = RequestView;

    open spec fn view(&self) -> RequestView {
        RequestView {
            repository: self.repository@,
            ecosystem: self.ecosystem@,
            package_name: self.package_name@,
            current_version: self.current_version@,
            target_version: self.target_version@,
            metadata: self.metadata@,
        }
    }
}

/// One proposed file mutation.
#[derive(Debug, Clone)]
pub struct Change {
    pub file_path: String,
    pub change_type: ChangeType,
    pub content: String,
    pub metadata: HashMap<String, serde_json::Value>,
}

/// The mathematical value of a [`Change`].
pub struct ChangeView {
    pub file_path: Seq<char>,
    pub change_type: ChangeType,
    pub content: Seq<char>,
    pub metadata: Map<String, serde_json::Value>,
}

impl View for Change {
    type V = ChangeView;

    open spec fn view(&self) -> ChangeView {
        ChangeView {
            file_path: self.file_path@,
            change_type: self.change_type,
            content: self.content@,
            metadata: self.metadata@,
        }
    }
}

/// The mathematical values of a list of changes, in order.
pub open spec fn changes_view(changes: Seq<Change>) -> Seq<ChangeView> {
    changes.map_values(|change: Change| change@)
}

/// The verdict on how risky an upgrade is.
#[derive(Debug, Clone)]
pub struct RiskAssessment {
    pub risk_level: RiskLevel,
    pub breaking_changes: bool,
    pub security_issues: Vec<String>,
    pub performance_impact: PerformanceImpact,
}

/// The mathematical value of a [`RiskAssessment`].
pub struct RiskView {
    pub risk_level: RiskLevel,
    pub breaking_changes: bool,
    pub security_issues: Seq<Seq<char>>,
    pub performance_impact: PerformanceImpact,
}

impl View for RiskAssessment {
    type V = RiskView;

    open spec fn view(&self) -> RiskView {
        RiskView {
            risk_level: self.risk_level,
            breaking_changes: self.breaking_changes,
            security_issues: self.security_issues@.map_values(|issue: String| issue@),
            performance_impact: self.performance_impact,
        }
    }
}

/// The outcome of a successful evaluation.
#[derive(Debug, Clone)]
pub struct UpgradeResponse {
    pub success: bool,
    pub message: String,
    pub changes: Vec<Change>,
    pub compatibility_score: CompatibilityScore,
    pub risk_assessment: RiskAssessment,
}

/// The mathematical value of an [`UpgradeResponse`]. The score counts
/// ten-thousandths.
pub struct ResponseView {
    pub success: bool,
    pub message: Seq<char>,
    pub changes: Seq<ChangeView>,
    pub compatibility_score: nat,
    pub risk_assessment: RiskView,
}

impl View for UpgradeResponse {
    type V = ResponseView;

    open spec fn view(&self) -> ResponseView {
        ResponseView {
            success: self.success,
            message: self.message@,
            changes: changes_view(self.changes@),
            compatibility_score: self.compatibility_score@,
            risk_assessment: self.risk_assessment@,
        }
    }
}

/// Why an evaluation failed.
#[derive(Debug)]
pub struct UpgradeError {
    pub message: String,
    pub error_type: ErrorType,
}

/// The mathematical value of an [`UpgradeError`].
pub struct ErrorView {
    pub message: Seq<char>,
    pub error_type: ErrorType,
}

impl View for UpgradeError {
    type V = ErrorView;

    open spec fn view(&self) -> ErrorView {
        ErrorView { message: self.message@, error_type: self.error_type }
    }
}

impl UpgradeError {
    /// The error as shown to a reader: its message.
    pub fn to_text(&self) -> (text: String)
        ensures
            text@ == self.message@,
    {
        self.message.clone()
    }
}

/// Soft operating limits, declared for whatever hosts the evaluation. The
/// evaluation itself does not read them.
#[derive(Debug, Clone)]
pub struct WorkerConfig {
    /// Seconds that one evaluation may take.
    pub max_execution_time: u64,
    /// Bytes of memory that one evaluation may use.
    pub memory_limit: u64,
    pub sandbox_enabled: bool,
    pub log_level: String,
}

/// The memory limit of the default configuration: one gibibyte.
pub const DEFAULT_MEMORY_LIMIT: u64 = 1_073_741_824;

/// The time limit of the default configuration, in seconds.
pub const DEFAULT_MAX_EXECUTION_TIME: u64 = 300;

impl WorkerConfig {
    /// Whether this is the default configuration.
    pub open spec fn is_default(&self) -> bool {
        &&& self.max_execution_time == DEFAULT_MAX_EXECUTION_TIME
        &&& self.memory_limit == DEFAULT_MEMORY_LIMIT
        &&& self.sandbox_enabled
        &&& self.log_level@ == "info"@
    }
}

impl Default for WorkerConfig {
    fn default() -> (config: WorkerConfig)
        ensures
            config.is_default(),
    {
        WorkerConfig {
            max_execution_time: DEFAULT_MAX_EXECUTION_TIME,
            memory_limit: DEFAULT_MEMORY_LIMIT,
            sandbox_enabled: true,
            log_level: "info".to_owned(),
        }
    }
}

} // verus!
