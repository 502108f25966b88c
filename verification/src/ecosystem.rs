//! Package ecosystems and the confidence that an upgrade in one of them can
//! be evaluated well.

use crate::text::same_text;
use vstd::prelude::*;

verus! {

/// A package manager that the evaluation knows by name, or none of them.
#[derive(Debug, Clone, Copy, PartialEq, Eq, Structural)]
pub enum Ecosystem {
    Npm,
    Cargo,
    Pip,
    Go,
    Unrecognized,
}

/// Confidence in an upgrade before the ecosystem is taken into account, in
/// hundredths.
pub const BASE_CONFIDENCE_PERCENT: u32 = 80;

/// The highest score, which stands for full confidence: scores count
/// ten-thousandths.
pub const FULL_SCORE: u32 = 10_000;

/// The ecosystem that a request names. Names are matched exactly.
pub open spec fn ecosystem_named(name: Seq<char>) -> Ecosystem {
    if name == "npm"@ {
        Ecosystem::Npm
    } else if name == "cargo"@ {
        Ecosystem::Cargo
    } else if name == "pip"@ {
        Ecosystem::Pip
    } else if name == "go"@ {
        Ecosystem::Go
    } else {
        Ecosystem::Unrecognized
    }
}

/// The score of an ecosystem in ten-thousandths: base confidence times the
/// ecosystem's factor, and never more than full confidence.
pub open spec fn score_of(ecosystem: Ecosystem) -> nat {
    let product = BASE_CONFIDENCE_PERCENT as nat * ecosystem.factor_percent();
    if product > FULL_SCORE as nat {
        FULL_SCORE as nat
    } else {
        product
    }
}

impl Ecosystem {
    /// How well the tooling covers the ecosystem, in hundredths.
    pub open spec fn factor_percent(self) -> nat {
        match self {
            Ecosystem::Npm => 100,
            Ecosystem::Cargo => 90,
            Ecosystem::Pip => 85,
            Ecosystem::Go => 95,
            Ecosystem::Unrecognized => 70,
        }
    }

    /// The ecosystem called `name`.
    pub fn from_name(name: &str) -> (ecosystem: Ecosystem)
        ensures
            ecosystem == ecosystem_named(name@),
    {
        if same_text(name, "npm") {
            Ecosystem::Npm
        } else if same_text(name, "cargo") {
            Ecosystem::Cargo
        } else if same_text(name, "pip") {
            Ecosystem::Pip
        } else if same_text(name, "go") {
            Ecosystem::Go
        } else {
            Ecosystem::Unrecognized
        }
    }

    /// How well the tooling covers the ecosystem, in hundredths.
    pub fn coverage_factor(self) -> (factor: u32)
        ensures
            factor == self.factor_percent(),
    {
        match self {
            Ecosystem::Npm => 100,
            Ecosystem::Cargo => 90,
            Ecosystem::Pip => 85,
            Ecosystem::Go => 95,
            Ecosystem::Unrecognized => 70,
        }
    }
}

/// A compatibility score between no confidence and full confidence, counted
/// in ten-thousandths.
#[derive(Debug, Clone, Copy, PartialEq, Eq)]
pub struct CompatibilityScore {
    basis_points: u32,
}

impl View for CompatibilityScore {
    type V = nat;

    closed spec fn view(&self) -> nat {
        self.basis_points as nat
    }
}

impl CompatibilityScore {
    #[verifier::type_invariant]
    spec fn within_bounds(self) -> bool {
        self.basis_points <= FULL_SCORE
    }

    /// The score of an upgrade in `ecosystem`.
    pub fn for_ecosystem(ecosystem: Ecosystem) -> (score: CompatibilityScore)
        ensures
            score@ == score_of(ecosystem),
    {
        let product: u32 = BASE_CONFIDENCE_PERCENT * ecosystem.coverage_factor();
        let basis_points: u32 = if product > FULL_SCORE {
            FULL_SCORE
        } else {
            product
        };
        CompatibilityScore { basis_points }
    }

    /// The score that counts `points` ten-thousandths, where that is no more
    /// than full confidence.
    pub fn from_basis_points(points: u32) -> (score: Option<CompatibilityScore>)
        ensures
            match score {
                Some(made) => points <= FULL_SCORE && made@ == points,
                None => points > FULL_SCORE,
            },
    {
        if points <= FULL_SCORE {
            Some(CompatibilityScore { basis_points: points })
        } else {
            None
        }
    }

    /// The score in ten-thousandths, from 0 to 10 000.
    pub fn basis_points(&self) -> (points: u32)
        ensures
            points == self@,
            points <= FULL_SCORE,
    {
        proof {
            use_type_invariant(self);
        }
        self.basis_points
    }
}

/// Every ecosystem, recognized or not, has a score between no confidence and
/// full confidence.
pub proof fn lemma_score_within_bounds(name: Seq<char>)
    ensures
        0 <= score_of(ecosystem_named(name)) <= FULL_SCORE,
{
}

} // verus!
