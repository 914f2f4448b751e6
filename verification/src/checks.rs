//! The checks, each on its own: what it reads, when it passes, and the error
//! it gives when it does not.

use vstd::prelude::*;
use vstd::string::*;
use crate::kinds::{CheckerError, CheckerWarning, ErrorView};
use crate::model::{has_key, lookup, ManifestView, ModManifest, RegistrySnapshot, ReleaseMetadata};
use crate::text::{ends_with_zip, is_archive_name, opt_text, strip_leading_v, strip_v, texts};

verus! {

/// The result of one check. A check either passes, passes and leaves a
/// warning, or fails with the error that ends the run.
#[derive(Clone, Debug, PartialEq, Eq)]
pub enum CheckOutcome {
    Pass,
    PassWithWarning(CheckerWarning),
    Fail(CheckerError),
}

/// The outcome of the exact comparison of unique names.
pub open spec fn unique_name_verdict(actual: Seq<char>, expected: Seq<char>) -> Option<ErrorView> {
    if actual == expected {
        None
    } else {
        Some(ErrorView::UnexpectedUniqueName { expected, actual })
    }
}

/// The outcome of the comparison of a release tag with a manifest version,
/// each without one leading `v`.
pub open spec fn version_verdict(tag: Seq<char>, version: Seq<char>) -> Option<ErrorView> {
    if strip_v(version) == strip_v(tag) {
        None
    } else {
        Some(ErrorView::UnexpectedVersion { expected: strip_v(tag), actual: strip_v(version) })
    }
}

/// The outcome of asking that a name be new to the registry.
pub open spec fn unused_name_verdict(reg: Map<Seq<char>, Seq<char>>, name: Seq<char>) -> Option<
    ErrorView,
> {
    match lookup(reg, name) {
        Some(display) => Some(ErrorView::UniqueNameInUse(display)),
        None => None,
    }
}

/// The first dependency at or after `from` that the registry does not hold.
pub open spec fn first_missing_from(
    deps: Seq<Seq<char>>,
    reg: Map<Seq<char>, Seq<char>>,
    from: int,
) -> Option<Seq<char>>
    decreases deps.len() - from,
{
    if from < 0 || from >= deps.len() {
        None
    } else if !has_key(reg, deps[from]) {
        Some(deps[from])
    } else {
        first_missing_from(deps, reg, from + 1)
    }
}

/// The outcome of the dependency check: the first declared dependency that
/// the registry does not hold is reported; a manifest that declares none
/// passes.
pub open spec fn dependency_verdict(
    deps: Option<Seq<Seq<char>>>,
    reg: Map<Seq<char>, Seq<char>>,
) -> Option<ErrorView> {
    match deps {
        Some(d) => match first_missing_from(d, reg, 0) {
            Some(name) => Some(ErrorView::MissingDependency(name)),
            None => None,
        },
        None => None,
    }
}

/// The download address of the first asset at or after `from` whose name
/// ends in `.zip`.
pub open spec fn archive_from(assets: Seq<(Seq<char>, Seq<char>)>, from: int) -> Option<Seq<char>>
    decreases assets.len() - from,
{
    if from < 0 || from >= assets.len() {
        None
    } else if is_archive_name(assets[from].0) {
        Some(assets[from].1)
    } else {
        archive_from(assets, from + 1)
    }
}

/// The download address of the release's mod asset: the first asset whose
/// name ends in `.zip`.
pub open spec fn mod_asset(assets: Seq<(Seq<char>, Seq<char>)>) -> Option<Seq<char>> {
    archive_from(assets, 0)
}

/// The warnings that a repository's description and readme give rise to, in
/// the order in which they are gathered.
pub open spec fn repo_warnings(description: Option<Seq<char>>, has_readme: bool) -> Seq<
    CheckerWarning,
> {
    let first = if description is None || description->0.len() == 0 {
        seq![CheckerWarning::MissingDescription]
    } else {
        Seq::<CheckerWarning>::empty()
    };
    if has_readme {
        first
    } else {
        first.push(CheckerWarning::MissingReadme)
    }
}

/// What a check's result says of the run: `Ok` where it passed, the error
/// where it failed.
pub open spec fn as_result(v: Option<ErrorView>, r: Result<(), CheckerError>) -> bool {
    match r {
        Ok(_) => v is None,
        Err(e) => v == Some(e@),
    }
}

/// Asks that the manifest carry exactly the expected unique name.
pub fn compare_unique_names(local_mod: &ModManifest, expected: &String) -> (r: Result<
    (),
    CheckerError,
>)
    ensures
        as_result(unique_name_verdict(local_mod@.unique_name, expected@), r),
{
    if local_mod.unique_name != *expected {
        Err(
            CheckerError::UnexpectedUniqueName {
                expected: expected.clone(),
                actual: local_mod.unique_name.clone(),
            },
        )
    } else {
        Ok(())
    }
}

/// Asks that the release's tag and the manifest's version agree once one
/// leading `v` is taken from each.
pub fn compare_tag_and_version(tag_name: &String, local_mod: &ModManifest) -> (r: Result<
    (),
    CheckerError,
>)
    ensures
        as_result(version_verdict(tag_name@, local_mod@.version), r),
{
    let expected = strip_leading_v(tag_name.as_str());
    let actual = strip_leading_v(local_mod.version.as_str());
    if actual != expected {
        Err(CheckerError::UnexpectedVersion { expected, actual })
    } else {
        Ok(())
    }
}

/// Asks that no mod be registered under `unique_name` yet.
pub fn check_name_unused(remote_db: &RegistrySnapshot, unique_name: &String) -> (r: Result<
    (),
    CheckerError,
>)
    ensures
        as_result(unused_name_verdict(remote_db@, unique_name@), r),
{
    match remote_db.get_mod(unique_name) {
        Some(display) => Err(CheckerError::UniqueNameInUse(display.clone())),
        None => Ok(()),
    }
}

/// Asks that every dependency the manifest declares be a key of the
/// registry. Dependencies of dependencies are not followed.
pub fn check_dependencies(local_mod: &ModManifest, remote_db: &RegistrySnapshot) -> (r: Result<
    (),
    CheckerError,
>)
    ensures
        as_result(dependency_verdict(local_mod@.dependencies, remote_db@), r),
{
    if let Some(dependencies) = &local_mod.dependencies {
        let n: usize = dependencies.len();
        let mut i: usize = 0;
        while i < n
            invariant
                n == dependencies@.len(),
                i <= n,
                local_mod.dependencies == Some(*dependencies),
                first_missing_from(texts(dependencies@), remote_db@, 0) == first_missing_from(
                    texts(dependencies@),
                    remote_db@,
                    i as int,
                ),
            decreases n - i,
        {
            if !remote_db.contains_key(&dependencies[i]) {
                return Err(CheckerError::MissingDependency(dependencies[i].clone()));
            }
            i += 1;
        }
    }
    Ok(())
}

/// Picks the release's mod asset, the first whose name ends in `.zip`, and
/// gives its download address.
pub fn select_mod_asset(release: &ReleaseMetadata) -> (r: Result<String, CheckerError>)
    ensures
        match r {
            Ok(url) => mod_asset(release@.assets) == Some(url@),
            Err(e) => mod_asset(release@.assets) is None && e@ == ErrorView::MissingModAsset,
        },
{
    let n: usize = release.assets.len();
    let mut i: usize = 0;
    while i < n
        invariant
            n == release.assets@.len(),
            i <= n,
            mod_asset(release@.assets) == archive_from(release@.assets, i as int),
        decreases n - i,
    {
        if ends_with_zip(release.assets[i].name.as_str()) {
            return Ok(release.assets[i].download_url.clone());
        }
        i += 1;
    }
    Err(CheckerError::MissingModAsset)
}

/// The outcome of looking at a repository's description: a warning where it
/// is absent or empty.
pub open spec fn description_outcome(description: Option<Seq<char>>) -> CheckOutcome {
    if description is None || description->0.len() == 0 {
        CheckOutcome::PassWithWarning(CheckerWarning::MissingDescription)
    } else {
        CheckOutcome::Pass
    }
}

/// The outcome of looking for a repository's readme: a warning where there
/// is none.
pub open spec fn readme_outcome(has_readme: bool) -> CheckOutcome {
    if has_readme {
        CheckOutcome::Pass
    } else {
        CheckOutcome::PassWithWarning(CheckerWarning::MissingReadme)
    }
}

/// Looks at a repository's description.
pub fn check_description(description: &Option<String>) -> (o: CheckOutcome)
    ensures
        o == description_outcome(opt_text(*description)),
{
    let missing = match description {
        Some(d) => d.as_str().unicode_len() == 0,
        None => true,
    };
    if missing {
        CheckOutcome::PassWithWarning(CheckerWarning::MissingDescription)
    } else {
        CheckOutcome::Pass
    }
}

/// Looks for a repository's readme.
pub fn check_readme(has_readme: bool) -> (o: CheckOutcome)
    ensures
        o == readme_outcome(has_readme),
{
    if has_readme {
        CheckOutcome::Pass
    } else {
        CheckOutcome::PassWithWarning(CheckerWarning::MissingReadme)
    }
}

/// Gathers the warnings on a repository's description and readme: one where
/// the description is absent or empty, then one where there is no readme.
pub fn check_for_description_and_readme(
    description: &Option<String>,
    has_readme: bool,
    warnings: &mut Vec<CheckerWarning>,
)
    ensures
        final(warnings)@ == old(warnings)@ + repo_warnings(opt_text(*description), has_readme),
{
    if let CheckOutcome::PassWithWarning(w) = check_description(description) {
        warnings.push(w);
    }
    if let CheckOutcome::PassWithWarning(w) = check_readme(has_readme) {
        warnings.push(w);
    }
    assert(warnings@ =~= old(warnings)@ + repo_warnings(opt_text(*description), has_readme));
}

/// The outcome of the check made before anything is installed: where the
/// registry is consulted and a unique name is expected, that name must be new
/// to the registry.
pub open spec fn pre_install_verdict(
    expected: Option<Seq<char>>,
    check_remote: bool,
    reg: Map<Seq<char>, Seq<char>>,
) -> Option<ErrorView> {
    match expected {
        Some(name) => if check_remote {
            unused_name_verdict(reg, name)
        } else {
            None
        },
        None => None,
    }
}

/// The outcome of settling the installed unique name: with an expected name
/// the two must be equal, whatever the registry holds; without one, and where
/// the registry is consulted, the installed name must be new to it.
pub open spec fn name_resolution_verdict(
    expected: Option<Seq<char>>,
    check_remote: bool,
    reg: Map<Seq<char>, Seq<char>>,
    actual: Seq<char>,
) -> Option<ErrorView> {
    match expected {
        Some(name) => unique_name_verdict(actual, name),
        None => if check_remote {
            unused_name_verdict(reg, actual)
        } else {
            None
        },
    }
}

/// The outcome of the checks on an installed manifest, in their fixed order:
/// the version against the release tag where there is a release, then the
/// unique name, then the dependencies. The first error is the outcome.
pub open spec fn post_install_verdict(
    tag: Option<Seq<char>>,
    expected: Option<Seq<char>>,
    check_remote: bool,
    reg: Map<Seq<char>, Seq<char>>,
    manifest: ManifestView,
) -> Option<ErrorView> {
    let version = match tag {
        Some(t) => version_verdict(t, manifest.version),
        None => None,
    };
    let unique = name_resolution_verdict(expected, check_remote, reg, manifest.unique_name);
    if version is Some {
        version
    } else if unique is Some {
        unique
    } else {
        dependency_verdict(manifest.dependencies, reg)
    }
}

/// The check made before anything is installed.
pub fn pre_install_check(
    expected_unique_name: &Option<String>,
    check_remote: bool,
    remote_db: &RegistrySnapshot,
) -> (r: Result<(), CheckerError>)
    ensures
        as_result(pre_install_verdict(opt_text(*expected_unique_name), check_remote, remote_db@), r),
{
    if check_remote {
        if let Some(unique_name) = expected_unique_name {
            return check_name_unused(remote_db, unique_name);
        }
    }
    Ok(())
}

/// The checks on an installed manifest, in their fixed order; the first
/// error ends them.
pub fn post_install_checks(
    tag_name: &Option<String>,
    expected_unique_name: &Option<String>,
    check_remote: bool,
    remote_db: &RegistrySnapshot,
    manifest: &ModManifest,
) -> (r: Result<(), CheckerError>)
    ensures
        as_result(
            post_install_verdict(
                opt_text(*tag_name),
                opt_text(*expected_unique_name),
                check_remote,
                remote_db@,
                manifest@,
            ),
            r,
        ),
{
    if let Some(tag) = tag_name {
        let version = compare_tag_and_version(tag, manifest);
        if version.is_err() {
            return version;
        }
    }
    let unique = if let Some(unique_name) = expected_unique_name {
        compare_unique_names(manifest, unique_name)
    } else if check_remote {
        check_name_unused(remote_db, &manifest.unique_name)
    } else {
        Ok(())
    };
    if unique.is_err() {
        return unique;
    }
    check_dependencies(manifest, remote_db)
}

} // verus!
