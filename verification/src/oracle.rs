//! The vulnerability oracle: the one capability that an evaluation takes from
//! outside. The evaluation depends on the question alone, so that a
//! deployment can put its own source of findings in the place of the one
//! provided here.

use crate::text::{occurs_in, same_text, text_contains};
use vstd::prelude::*;

verus! {

/// Answers whether a version of a package is known to be vulnerable.
///
/// Nothing is assumed of an answer: an oracle may consult a feed that changes
/// from one call to the next.
pub trait VulnerabilityOracle {
    fn has_known_vulnerability(&self, package_name: &str, version: &str) -> bool;
}

/// What the placeholder oracle reports: package names that hold the word
/// "vulnerable", and the all-zero version.
pub open spec fn placeholder_flags(package_name: Seq<char>, version: Seq<char>) -> bool {
    occurs_in(package_name, "vulnerable"@) || version == "0.0.0"@
}

/// Whether the placeholder oracle reports `version` of `package_name`.
pub fn placeholder_reports(package_name: &str, version: &str) -> (found: bool)
    ensures
        found == placeholder_flags(package_name@, version@),
{
    text_contains(package_name, "vulnerable") || same_text(version, "0.0.0")
}

/// An oracle that consults no data: it goes by the package's name and the
/// version string alone.
#[derive(Debug, Clone, Copy)]
pub struct PlaceholderOracle {}

impl VulnerabilityOracle for PlaceholderOracle {
    fn has_known_vulnerability(&self, package_name: &str, version: &str) -> (found: bool)
        ensures
            found == placeholder_flags(package_name@, version@),
    {
        placeholder_reports(package_name, version)
    }
}

} // verus!
