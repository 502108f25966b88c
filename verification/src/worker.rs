//! The evaluation pipeline: a request is validated, scored, turned into
//! changes and assessed, in this order and in one pass. It either yields a
//! complete response or fails on the first defect of the request.

use crate::changes::{synthesize, synthesized};
use crate::ecosystem::{ecosystem_named, score_of, CompatibilityScore, Ecosystem};
use crate::model::{
    changes_view, Change, ErrorType, RequestView, ResponseView, RiskAssessment, RiskView,
    UpgradeError, UpgradeRequest, UpgradeResponse, WorkerConfig,
};
use crate::oracle::{placeholder_flags, placeholder_reports, VulnerabilityOracle};
use crate::risk::risk_verdict;
use crate::version::{
    is_major_jump, is_valid_version, leading_number, lemma_validated_ok, Version,
};
use vstd::prelude::*;
use vstd::string::StringExecFns;

verus! {

/// The message of the first defect of a request, if it has one: an empty
/// repository, an empty package name, a current version that is no version
/// string, a target version that is none. Later defects are not looked for.
pub open spec fn validation_message(request: RequestView) -> Option<Seq<char>> {
    if request.repository.len() == 0 {
        Some("Repository cannot be empty"@)
    } else if request.package_name.len() == 0 {
        Some("Package name cannot be empty"@)
    } else if !is_valid_version(request.current_version) {
        Some("Invalid current version: "@ + request.current_version)
    } else if !is_valid_version(request.target_version) {
        Some("Invalid target version: "@ + request.target_version)
    } else {
        None
    }
}

/// The verdict on the upgrade that `request` proposes, given whether the
/// oracle reports its target version and how many changes it implies.
pub open spec fn request_verdict(request: RequestView, vulnerable: bool, change_count: nat)
    -> RiskView {
    risk_verdict(
        is_major_jump(request.current_version, request.target_version),
        vulnerable,
        change_count,
    )
}

/// The response to a request without defects, given whether the oracle
/// reports its target version.
pub open spec fn evaluation(request: RequestView, vulnerable: bool) -> ResponseView {
    ResponseView {
        success: true,
        message: "Upgrade processed successfully"@,
        changes: synthesized(request),
        compatibility_score: score_of(ecosystem_named(request.ecosystem)),
        risk_assessment: request_verdict(request, vulnerable, synthesized(request).len()),
    }
}

/// The validation error that carries `message`.
fn validation_error(message: String) -> (error: UpgradeError)
    ensures
        error@.message == message@,
        error@.error_type == ErrorType::Validation,
{
    UpgradeError { message, error_type: ErrorType::Validation }
}

/// Evaluates proposed upgrades. It keeps nothing from one request to the
/// next.
#[derive(Debug, Clone)]
pub struct UpgradeWorker {
    config: WorkerConfig,
}

impl UpgradeWorker {
    /// The configuration that the worker was made with.
    pub closed spec fn configuration(&self) -> WorkerConfig {
        self.config
    }

    /// A worker with `config`, or with the default configuration.
    pub fn new(config: Option<WorkerConfig>) -> (worker: UpgradeWorker)
        ensures
            match config {
                Some(given) => worker.configuration() == given,
                None => worker.configuration().is_default(),
            },
    {
        match config {
            Some(given) => UpgradeWorker { config: given },
            None => UpgradeWorker { config: WorkerConfig::default() },
        }
    }

    /// The configuration that the worker was made with.
    pub fn config(&self) -> (config: &WorkerConfig)
        ensures
            *config == self.configuration(),
    {
        &self.config
    }

    /// Whether `version` is a version string: two or three components
    /// separated by dots, each a non-empty run of ASCII letters, digits and
    /// hyphens.
    pub fn is_valid_version(&self, version: &str) -> (valid: bool)
        ensures
            valid == is_valid_version(version@),
    {
        proof {
            lemma_validated_ok(version@);
        }
        Version::parse_and_validate(version).is_ok()
    }

    /// Whether going from `current` to `target` raises the major number: the
    /// text before the first dot, read as a number, and as 0 where it is none.
    pub fn is_major_version_jump(&self, current: &str, target: &str) -> (jump: bool)
        ensures
            jump == is_major_jump(current@, target@),
    {
        leading_number(target) > leading_number(current)
    }

    /// What the placeholder oracle says of `version` of `package_name`.
    pub fn has_known_vulnerabilities(&self, package_name: &str, version: &str) -> (found: bool)
        ensures
            found == placeholder_flags(package_name@, version@),
    {
        placeholder_reports(package_name, version)
    }

    /// Looks for the first defect of `request` and fails with its message.
    pub fn validate_request(&self, request: &UpgradeRequest) -> (outcome: Result<(), UpgradeError>)
        ensures
            match outcome {
                Ok(_) => validation_message(request@) is None,
                Err(error) => {
                    &&& validation_message(request@) == Some(error@.message)
                    &&& error@.error_type == ErrorType::Validation
                },
            },
    {
        if request.repository.as_str().is_empty() {
            return Err(validation_error("Repository cannot be empty".to_owned()));
        }
        if request.package_name.as_str().is_empty() {
            return Err(validation_error("Package name cannot be empty".to_owned()));
        }
        if !self.is_valid_version(request.current_version.as_str()) {
            let mut message = "Invalid current version: ".to_owned();
            message.append(request.current_version.as_str());
            return Err(validation_error(message));
        }
        if !self.is_valid_version(request.target_version.as_str()) {
            let mut message = "Invalid target version: ".to_owned();
            message.append(request.target_version.as_str());
            return Err(validation_error(message));
        }
        Ok(())
    }

    /// The compatibility score of the request's ecosystem. It never fails.
    pub fn assess_compatibility(&self, request: &UpgradeRequest) -> (outcome: Result<
        CompatibilityScore,
        UpgradeError,
    >)
        ensures
            outcome matches Ok(score) && score@ == score_of(ecosystem_named(request@.ecosystem)),
    {
        let ecosystem = Ecosystem::from_name(request.ecosystem.as_str());
        Ok(CompatibilityScore::for_ecosystem(ecosystem))
    }

    /// The changes that the request implies. It never fails.
    pub fn generate_changes(&self, request: &UpgradeRequest) -> (outcome: Result<
        Vec<Change>,
        UpgradeError,
    >)
        ensures
            outcome matches Ok(changes) && changes_view(changes@) == synthesized(request@),
    {
        Ok(synthesize(request))
    }

    /// The verdict on the request with `changes`, by the placeholder oracle.
    /// It never fails.
    pub fn assess_risk(&self, request: &UpgradeRequest, changes: &[Change]) -> (outcome: Result<
        RiskAssessment,
        UpgradeError,
    >)
        ensures
            outcome matches Ok(verdict) && verdict@ == request_verdict(
                request@,
                placeholder_flags(request@.package_name, request@.target_version),
                changes@.len(),
            ),
    {
        let vulnerable = self.has_known_vulnerabilities(
            request.package_name.as_str(),
            request.target_version.as_str(),
        );
        Ok(self.verdict_given(request, vulnerable, changes.len()))
    }

    /// The verdict on the request with `changes`, by `oracle`. Whatever the
    /// oracle answers, the verdict is the one that goes with that answer.
    pub fn assess_risk_with<O: VulnerabilityOracle>(
        &self,
        oracle: &O,
        request: &UpgradeRequest,
        changes: &[Change],
    ) -> (verdict: RiskAssessment)
        ensures
            verdict@ == request_verdict(request@, true, changes@.len()) || verdict@
                == request_verdict(request@, false, changes@.len()),
    {
        let vulnerable = oracle.has_known_vulnerability(
            request.package_name.as_str(),
            request.target_version.as_str(),
        );
        self.verdict_given(request, vulnerable, changes.len())
    }

    /// The verdict on the request, given the oracle's answer and the number
    /// of changes.
    pub fn verdict_given(&self, request: &UpgradeRequest, vulnerable: bool, change_count: usize)
        -> (verdict: RiskAssessment)
        ensures
            verdict@ == request_verdict(request@, vulnerable, change_count as nat),
    {
        let major_jump = self.is_major_version_jump(
            request.current_version.as_str(),
            request.target_version.as_str(),
        );
        RiskAssessment::combine_signals(major_jump, vulnerable, change_count)
    }

    /// The response to a request without defects, given the oracle's answer.
    pub fn respond_given(&self, request: &UpgradeRequest, vulnerable: bool) -> (response:
        UpgradeResponse)
        ensures
            response@ == evaluation(request@, vulnerable),
    {
        let ecosystem = Ecosystem::from_name(request.ecosystem.as_str());
        let compatibility_score = CompatibilityScore::for_ecosystem(ecosystem);
        let changes = synthesize(request);
        let risk_assessment = self.verdict_given(request, vulnerable, changes.len());
        UpgradeResponse {
            success: true,
            message: "Upgrade processed successfully".to_owned(),
            changes,
            compatibility_score,
            risk_assessment,
        }
    }

    /// Evaluates `request` with the placeholder oracle. A request with a
    /// defect fails with a validation error that names the first one; any
    /// other request gets its complete response.
    pub fn process_upgrade(&self, request: UpgradeRequest) -> (outcome: Result<
        UpgradeResponse,
        UpgradeError,
    >)
        ensures
            match outcome {
                Ok(response) => {
                    &&& validation_message(request@) is None
                    &&& response@ == evaluation(
                        request@,
                        placeholder_flags(request@.package_name, request@.target_version),
                    )
                },
                Err(error) => {
                    &&& validation_message(request@) == Some(error@.message)
                    &&& error@.error_type == ErrorType::Validation
                },
            },
    {
        match self.validate_request(&request) {
            Err(error) => Err(error),
            Ok(_) => {
                let vulnerable = self.has_known_vulnerabilities(
                    request.package_name.as_str(),
                    request.target_version.as_str(),
                );
                Ok(self.respond_given(&request, vulnerable))
            },
        }
    }

    /// Evaluates `request` with `oracle`. Validation does not depend on the
    /// oracle; the response is the one that goes with the oracle's answer on
    /// the target version.
    pub fn process_upgrade_with<O: VulnerabilityOracle>(
        &self,
        oracle: &O,
        request: UpgradeRequest,
    ) -> (outcome: Result<UpgradeResponse, UpgradeError>)
        ensures
            match outcome {
                Ok(response) => {
                    &&& validation_message(request@) is None
                    &&& (response@ == evaluation(request@, true) || response@ == evaluation(
                        request@,
                        false,
                    ))
                },
                Err(error) => {
                    &&& validation_message(request@) == Some(error@.message)
                    &&& error@.error_type == ErrorType::Validation
                },
            },
    {
        match self.validate_request(&request) {
            Err(error) => Err(error),
            Ok(_) => {
                let vulnerable = oracle.has_known_vulnerability(
                    request.package_name.as_str(),
                    request.target_version.as_str(),
                );
                Ok(self.respond_given(&request, vulnerable))
            },
        }
    }
}

} // verus!
