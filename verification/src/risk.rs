//! Risk assessment: three signals, applied in a fixed order, each of which
//! may raise the verdict and none of which lowers it.

use crate::model::{PerformanceImpact, RiskAssessment, RiskLevel, RiskView};
use vstd::prelude::*;

verus! {

/// More changes than this count as a volume that may cost performance.
pub const CHANGE_VOLUME_THRESHOLD: usize = 5;

/// The finding that is recorded when the oracle reports a vulnerability.
pub open spec fn finding_text() -> Seq<char> {
    "Known security vulnerability detected"@
}

/// The verdict before any signal: low risk, nothing breaking, no finding, no
/// performance impact.
pub open spec fn baseline() -> RiskView {
    RiskView {
        risk_level: RiskLevel::Low,
        breaking_changes: false,
        security_issues: Seq::empty(),
        performance_impact: PerformanceImpact::NoImpact,
    }
}

/// The version-delta signal: a major jump is breaking and at least of high
/// risk.
pub open spec fn after_version_delta(verdict: RiskView, major_jump: bool) -> RiskView {
    if major_jump {
        RiskView {
            risk_level: verdict.risk_level.raised(RiskLevel::High),
            breaking_changes: true,
            ..verdict
        }
    } else {
        verdict
    }
}

/// The security signal: a reported vulnerability is recorded as a finding and
/// makes the risk critical.
pub open spec fn after_security(verdict: RiskView, vulnerable: bool) -> RiskView {
    if vulnerable {
        RiskView {
            risk_level: verdict.risk_level.raised(RiskLevel::Critical),
            security_issues: verdict.security_issues.push(finding_text()),
            ..verdict
        }
    } else {
        verdict
    }
}

/// The volume signal: many changes mean a medium performance impact. It
/// leaves the risk level alone.
pub open spec fn after_volume(verdict: RiskView, change_count: nat) -> RiskView {
    if change_count > CHANGE_VOLUME_THRESHOLD {
        RiskView { performance_impact: PerformanceImpact::Medium, ..verdict }
    } else {
        verdict
    }
}

/// The verdict on an upgrade: the baseline after the version-delta signal,
/// the security signal and the volume signal, in this order.
pub open spec fn risk_verdict(major_jump: bool, vulnerable: bool, change_count: nat) -> RiskView {
    after_volume(
        after_security(after_version_delta(baseline(), major_jump), vulnerable),
        change_count,
    )
}

impl RiskAssessment {
    /// The verdict before any signal.
    pub fn baseline() -> (verdict: RiskAssessment)
        ensures
            verdict@ == baseline(),
    {
        let verdict = RiskAssessment {
            risk_level: RiskLevel::Low,
            breaking_changes: false,
            security_issues: Vec::new(),
            performance_impact: PerformanceImpact::NoImpact,
        };
        assert(verdict@.security_issues =~= Seq::empty());
        verdict
    }

    /// Applies the version-delta signal.
    pub fn apply_version_delta(self, major_jump: bool) -> (verdict: RiskAssessment)
        ensures
            verdict@ == after_version_delta(self@, major_jump),
    {
        if major_jump {
            RiskAssessment {
                risk_level: self.risk_level.raised_to(RiskLevel::High),
                breaking_changes: true,
                security_issues: self.security_issues,
                performance_impact: self.performance_impact,
            }
        } else {
            self
        }
    }

    /// Applies the security signal.
    pub fn apply_security(self, vulnerable: bool) -> (verdict: RiskAssessment)
        ensures
            verdict@ == after_security(self@, vulnerable),
    {
        if vulnerable {
            let mut security_issues = self.security_issues;
            security_issues.push("Known security vulnerability detected".to_owned());
            let verdict = RiskAssessment {
                risk_level: self.risk_level.raised_to(RiskLevel::Critical),
                breaking_changes: self.breaking_changes,
                security_issues,
                performance_impact: self.performance_impact,
            };
            assert(verdict@.security_issues =~= self@.security_issues.push(finding_text()));
            verdict
        } else {
            self
        }
    }

    /// Applies the volume signal.
    pub fn apply_volume(self, change_count: usize) -> (verdict: RiskAssessment)
        ensures
            verdict@ == after_volume(self@, change_count as nat),
    {
        if change_count > CHANGE_VOLUME_THRESHOLD {
            RiskAssessment {
                risk_level: self.risk_level,
                breaking_changes: self.breaking_changes,
                security_issues: self.security_issues,
                performance_impact: PerformanceImpact::Medium,
            }
        } else {
            self
        }
    }

    /// The verdict on an upgrade, from what the three signals found.
    pub fn combine_signals(major_jump: bool, vulnerable: bool, change_count: usize) -> (verdict:
        RiskAssessment)
        ensures
            verdict@ == risk_verdict(major_jump, vulnerable, change_count as nat),
    {
        RiskAssessment::baseline().apply_version_delta(major_jump).apply_security(
            vulnerable,
        ).apply_volume(change_count)
    }
}

/// No signal lowers the risk level that it finds.
pub proof fn lemma_signals_never_lower(
    verdict: RiskView,
    major_jump: bool,
    vulnerable: bool,
    change_count: nat,
)
    ensures
        after_version_delta(verdict, major_jump).risk_level.rank() >= verdict.risk_level.rank(),
        after_security(verdict, vulnerable).risk_level.rank() >= verdict.risk_level.rank(),
        after_volume(verdict, change_count).risk_level == verdict.risk_level,
{
}

/// The risk level of a verdict goes by the version delta and the finding
/// alone: critical with a finding, else high after a major jump, else low.
/// A major jump, and nothing else, is breaking.
pub proof fn lemma_risk_level_by_signals(major_jump: bool, vulnerable: bool, change_count: nat)
    ensures
        risk_verdict(major_jump, vulnerable, change_count).risk_level == if vulnerable {
            RiskLevel::Critical
        } else if major_jump {
            RiskLevel::High
        } else {
            RiskLevel::Low
        },
        risk_verdict(major_jump, vulnerable, change_count).breaking_changes == major_jump,
{
}

/// A reported vulnerability makes the risk critical whatever the version
/// delta, and is recorded as the one finding. Without a report there is no
/// finding.
pub proof fn lemma_finding_is_critical(major_jump: bool, vulnerable: bool, change_count: nat)
    ensures
        vulnerable ==> risk_verdict(major_jump, vulnerable, change_count).risk_level
            == RiskLevel::Critical,
        risk_verdict(major_jump, vulnerable, change_count).security_issues == if vulnerable {
            seq![finding_text()]
        } else {
            Seq::<Seq<char>>::empty()
        },
{
    assert(Seq::<Seq<char>>::empty().push(finding_text()) =~= seq![finding_text()]);
}

/// The performance impact is medium exactly when there are more changes than
/// the threshold, and else there is none.
pub proof fn lemma_volume_decides_performance(
    major_jump: bool,
    vulnerable: bool,
    change_count: nat,
)
    ensures
        risk_verdict(major_jump, vulnerable, change_count).performance_impact
            == PerformanceImpact::Medium <==> change_count > CHANGE_VOLUME_THRESHOLD,
        change_count <= CHANGE_VOLUME_THRESHOLD ==> risk_verdict(
            major_jump,
            vulnerable,
            change_count,
        ).performance_impact == PerformanceImpact::NoImpact,
{
}

} // verus!
