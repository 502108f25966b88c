//! Change synthesis: the file mutations that an upgrade implies. Each
//! ecosystem with a rule contributes one change, which states in the
//! ecosystem's manifest file that the package is pinned to the target
//! version. The content is the intended state of the file, not a patch.

use crate::ecosystem::{ecosystem_named, Ecosystem};
use crate::model::{Change, ChangeType, ChangeView, RequestView, UpgradeRequest, changes_view};
use std::collections::HashMap;
use vstd::prelude::*;
use vstd::string::StringExecFns;

verus! {

/// The fragment of `package.json` that pins `package` to `version`.
pub open spec fn npm_manifest(package: Seq<char>, version: Seq<char>) -> Seq<char> {
    "{\"dependencies\": {\""@ + package + "\": \""@ + version + "\"}}"@
}

/// The fragment of `Cargo.toml` that pins `package` to `version`.
pub open spec fn cargo_manifest(package: Seq<char>, version: Seq<char>) -> Seq<char> {
    "[dependencies]"@ + package + " = \""@ + version + "\""@
}

/// The manifest file of an ecosystem, where there is a rule for it.
pub open spec fn manifest_path(ecosystem: Ecosystem) -> Option<Seq<char>> {
    match ecosystem {
        Ecosystem::Npm => Some("package.json"@),
        Ecosystem::Cargo => Some("Cargo.toml"@),
        _ => None,
    }
}

/// What the manifest file of an ecosystem holds once `package` is pinned to
/// `version`. It is empty where there is no rule.
pub open spec fn manifest_content(ecosystem: Ecosystem, package: Seq<char>, version: Seq<char>)
    -> Seq<char> {
    match ecosystem {
        Ecosystem::Npm => npm_manifest(package, version),
        Ecosystem::Cargo => cargo_manifest(package, version),
        _ => Seq::empty(),
    }
}

/// The change that pinning `package` to `version` makes in an ecosystem,
/// where there is a rule for it.
pub open spec fn manifest_change(ecosystem: Ecosystem, package: Seq<char>, version: Seq<char>)
    -> Option<ChangeView> {
    match manifest_path(ecosystem) {
        Some(file_path) => Some(
            ChangeView {
                file_path,
                change_type: ChangeType::Modify,
                content: manifest_content(ecosystem, package, version),
                metadata: Map::empty(),
            },
        ),
        None => None,
    }
}

/// The changes that a request implies: the manifest change of its ecosystem,
/// or none.
pub open spec fn synthesized(request: RequestView) -> Seq<ChangeView> {
    match manifest_change(
        ecosystem_named(request.ecosystem),
        request.package_name,
        request.target_version,
    ) {
        Some(change) => seq![change],
        None => Seq::empty(),
    }
}

/// The manifest file of an ecosystem, where there is a rule for it.
pub fn manifest_file(ecosystem: Ecosystem) -> (file: Option<&'static str>)
    ensures
        match file {
            Some(path) => manifest_path(ecosystem) == Some(path@),
            None => manifest_path(ecosystem) is None,
        },
{
    match ecosystem {
        Ecosystem::Npm => Some("package.json"),
        Ecosystem::Cargo => Some("Cargo.toml"),
        _ => None,
    }
}

/// What the manifest file of an ecosystem holds once `package` is pinned to
/// `version`.
pub fn manifest_fragment(ecosystem: Ecosystem, package: &str, version: &str) -> (content: String)
    ensures
        content@ == manifest_content(ecosystem, package@, version@),
{
    match ecosystem {
        Ecosystem::Npm => {
            let mut content = "{\"dependencies\": {\"".to_owned();
            content.append(package);
            content.append("\": \"");
            content.append(version);
            content.append("\"}}");
            content
        },
        Ecosystem::Cargo => {
            let mut content = "[dependencies]".to_owned();
            content.append(package);
            content.append(" = \"");
            content.append(version);
            content.append("\"");
            content
        },
        _ => String::new(),
    }
}

/// The change that pinning `package` to `version` makes in an ecosystem,
/// where there is a rule for it.
pub fn manifest_change_for(ecosystem: Ecosystem, package: &str, version: &str) -> (change: Option<
    Change,
>)
    ensures
        match change {
            Some(made) => manifest_change(ecosystem, package@, version@) == Some(made@),
            None => manifest_change(ecosystem, package@, version@) is None,
        },
{
    match manifest_file(ecosystem) {
        Some(path) => Some(
            Change {
                file_path: path.to_owned(),
                change_type: ChangeType::Modify,
                content: manifest_fragment(ecosystem, package, version),
                metadata: HashMap::new(),
            },
        ),
        None => None,
    }
}

/// The changes that `request` implies, in order.
pub fn synthesize(request: &UpgradeRequest) -> (changes: Vec<Change>)
    ensures
        changes_view(changes@) == synthesized(request@),
{
    let ecosystem = Ecosystem::from_name(request.ecosystem.as_str());
    let mut changes: Vec<Change> = Vec::new();
    match manifest_change_for(
        ecosystem,
        request.package_name.as_str(),
        request.target_version.as_str(),
    ) {
        Some(change) => {
            changes.push(change);
            assert(changes_view(changes@) =~= seq![change@]);
        },
        None => {
            assert(changes_view(changes@) =~= Seq::empty());
        },
    }
    changes
}

/// A request for `npm` implies one modification of `package.json`, one for
/// `cargo` one modification of `Cargo.toml`, and one for an ecosystem that is
/// not recognized implies no change. No request implies more than one.
pub proof fn lemma_synthesized_by_ecosystem(request: RequestView)
    ensures
        synthesized(request).len() <= 1,
        request.ecosystem == "npm"@ ==> {
            &&& synthesized(request).len() == 1
            &&& synthesized(request)[0].file_path == "package.json"@
            &&& synthesized(request)[0].change_type == ChangeType::Modify
        },
        request.ecosystem == "cargo"@ ==> {
            &&& synthesized(request).len() == 1
            &&& synthesized(request)[0].file_path == "Cargo.toml"@
            &&& synthesized(request)[0].change_type == ChangeType::Modify
        },
        ecosystem_named(request.ecosystem) == Ecosystem::Unrecognized ==> synthesized(request).len()
            == 0,
{
    reveal_strlit("npm");
    reveal_strlit("cargo");
    assert("npm"@.len() != "cargo"@.len());
}

} // verus!
