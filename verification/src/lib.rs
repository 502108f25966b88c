//! Evaluation of proposed dependency upgrades: a request naming a package and
//! two versions is validated, scored for compatibility, turned into the
//! manifest changes it implies and assessed for risk.

pub mod changes;
pub mod ecosystem;
pub mod model;
pub mod oracle;
pub mod risk;
pub mod text;
pub mod version;
pub mod worker;

pub use crate::ecosystem::{CompatibilityScore, Ecosystem};
pub use crate::model::{
    Change, ChangeType, ErrorType, PerformanceImpact, RiskAssessment, RiskLevel, UpgradeError,
    UpgradeRequest, UpgradeResponse, WorkerConfig,
};
pub use crate::oracle::{PlaceholderOracle, VulnerabilityOracle};
pub use crate::version::{ValidationFailure, Version};
pub use crate::worker::UpgradeWorker;
