//! What a run comes to when the outside work answers in a fixed way, and the
//! laws that hold of it.

use vstd::prelude::*;
use crate::checks::{
    first_missing_from, mod_asset, name_resolution_verdict,
    post_install_verdict, pre_install_verdict, repo_warnings, unique_name_verdict,
    version_verdict,
};
use crate::cli::SourceView;
use crate::kinds::{CheckerWarning, ErrorView};
use crate::model::{has_key, ManifestView, ReleaseView};
use crate::pipeline::{
    initial_state, repo_parts, report_of, step_spec, ActionView, EventView, Phase, PipelineView,
};
use crate::report::ReportView;
use crate::text::{split_reference, strip_v};

verus! {

/// What one invocation asks for.
pub struct Request {
    pub command: SourceView,
    pub expected_unique_name: Option<Seq<char>>,
    pub check_remote: bool,
}

/// The answers of the outside work, fixed for one run.
pub struct Responses {
    pub registry: Map<Seq<char>, Seq<char>>,
    pub repo_exists: bool,
    pub release: Option<ReleaseView>,
    pub description: Option<Seq<char>>,
    pub has_readme: bool,
    pub installed: Result<ManifestView, Seq<char>>,
}

/// The event that answers a piece of outside work.
pub open spec fn respond(a: ActionView, r: Responses) -> EventView {
    match a {
        ActionView::FetchRegistry => EventView::Registry(r.registry),
        ActionView::LookupRepo { .. } => EventView::RepoLookup(r.repo_exists),
        ActionView::FetchLatestRelease { .. } => EventView::LatestRelease(r.release),
        ActionView::FetchRepoDetails { .. } => EventView::RepoDetails {
            description: r.description,
            has_readme: r.has_readme,
        },
        ActionView::InstallFromUrl { .. } => EventView::Installed(r.installed),
        ActionView::InstallFromFile { .. } => EventView::Installed(r.installed),
        ActionView::Cleanup => EventView::CleanedUp,
        ActionView::Finish => EventView::CleanedUp,
    }
}

/// The state reached from `s` by doing the work `a` and what follows it, for
/// at most `n` pieces of work.
pub open spec fn run_from(s: PipelineView, a: ActionView, r: Responses, n: nat) -> PipelineView
    decreases n,
{
    if n == 0 || a is Finish {
        s
    } else {
        match step_spec(s, respond(a, r)) {
            Some((s1, a1)) => run_from(s1, a1, r, (n - 1) as nat),
            None => s,
        }
    }
}

/// The state in which a run ends. No run asks for more than six pieces of
/// work.
pub open spec fn final_state(q: Request, r: Responses) -> PipelineView {
    let s0 = initial_state(q.command, q.expected_unique_name, q.check_remote);
    match step_spec(s0, EventView::Begin) {
        Some((s1, a1)) => run_from(s1, a1, r, 6),
        None => s0,
    }
}

/// The report of a run.
pub open spec fn run_report(q: Request, r: Responses) -> ReportView {
    report_of(final_state(q, r))
}

/// A report that holds an error, the warnings gathered before it, and no
/// address.
pub open spec fn failed(warnings: Seq<CheckerWarning>, e: ErrorView) -> ReportView {
    ReportView { url: None, warnings, error: Some(e) }
}

/// The report once the source is resolved: the installer's failure, or the
/// outcome of the checks on the installed manifest.
pub open spec fn installed_report(
    q: Request,
    r: Responses,
    tag: Option<Seq<char>>,
    url: Option<Seq<char>>,
    warnings: Seq<CheckerWarning>,
) -> ReportView {
    match r.installed {
        Err(detail) => failed(warnings, ErrorView::FailedToInstall(detail)),
        Ok(manifest) => match post_install_verdict(
            tag,
            q.expected_unique_name,
            q.check_remote,
            r.registry,
            manifest,
        ) {
            Some(e) => failed(warnings, e),
            None => ReportView { url, warnings, error: None },
        },
    }
}

/// The report of a run, said directly: the check before installation, then
/// the source resolved, then the installation and the checks on what was
/// installed. The first error ends the run.
pub open spec fn verdict(q: Request, r: Responses) -> ReportView {
    let none = Seq::<CheckerWarning>::empty();
    match pre_install_verdict(q.expected_unique_name, q.check_remote, r.registry) {
        Some(e) => failed(none, e),
        None => match q.command {
            SourceView::Repo { repo } => {
                if split_reference(repo) is None {
                    failed(none, ErrorView::MissingRelease)
                } else if !r.repo_exists {
                    failed(none, ErrorView::MissingRepo)
                } else {
                    match r.release {
                        None => failed(none, ErrorView::MissingRelease),
                        Some(rel) => match mod_asset(rel.assets) {
                            None => failed(none, ErrorView::MissingModAsset),
                            Some(url) => installed_report(
                                q,
                                r,
                                Some(rel.tag_name),
                                Some(url),
                                repo_warnings(r.description, r.has_readme),
                            ),
                        },
                    }
                }
            },
            SourceView::Url { url } => installed_report(q, r, None, Some(url), none),
            SourceView::File { file } => installed_report(q, r, None, None, none),
        },
    }
}

/// Every run ends in the state that is done, and its report is the verdict.
/// So the report is a function of the request and of the answers alone: two
/// runs on the same request and the same answers give the same report.
pub proof fn lemma_run_gives_verdict(q: Request, r: Responses)
    ensures
        final_state(q, r).phase == Phase::Done,
        run_report(q, r) == verdict(q, r),
{
    reveal_with_fuel(run_from, 7);
    let got = run_report(q, r);
    let want = verdict(q, r);
    assert(got.warnings =~= want.warnings);
}

/// A run that passes on a repository reports the download address of the
/// release's mod asset; a run on a direct address reports that address; a
/// run on a local file reports no address.
pub proof fn lemma_success_url(q: Request, r: Responses)
    requires
        run_report(q, r).error is None,
    ensures
        match q.command {
            SourceView::Repo { .. } => r.release is Some && mod_asset(r.release->0.assets)
                is Some && run_report(q, r).url == mod_asset(r.release->0.assets),
            SourceView::Url { url } => run_report(q, r).url == Some(url),
            SourceView::File { .. } => run_report(q, r).url is None,
        },
{
    lemma_run_gives_verdict(q, r);
}

/// A run on a local file reports no address, however it ends; and a run that
/// fails reports none either.
pub proof fn lemma_no_url_without_download(q: Request, r: Responses)
    ensures
        q.command is File ==> run_report(q, r).url is None,
        run_report(q, r).error is Some ==> run_report(q, r).url is None,
{
    lemma_run_gives_verdict(q, r);
}

/// Warnings come only from a repository's description and readme. Once the
/// release's mod asset is selected they are gathered, and no failure later
/// in the run takes them away.
pub proof fn lemma_warnings_survive(q: Request, r: Responses)
    ensures
        run_report(q, r).warnings.len() == 0 || run_report(q, r).warnings == repo_warnings(
            r.description,
            r.has_readme,
        ),
        pre_install_verdict(q.expected_unique_name, q.check_remote, r.registry) is None
            && repo_parts(q.command) is Some && r.repo_exists && r.release is Some && mod_asset(
            r.release->0.assets,
        ) is Some ==> run_report(q, r).warnings == repo_warnings(r.description, r.has_readme),
{
    lemma_run_gives_verdict(q, r);
}

/// Whether the source of a run resolves to something that can be installed.
/// A direct address and a local file always do; a repository does where its
/// reference is well formed, it exists, and its latest release holds a mod
/// asset.
pub open spec fn source_resolves(q: Request, r: Responses) -> bool {
    match q.command {
        SourceView::Repo { repo } => split_reference(repo) is Some && r.repo_exists
            && r.release is Some && mod_asset(r.release->0.assets) is Some,
        _ => true,
    }
}

/// Whether a run gets as far as installing: the check before installation
/// passes and the source resolves.
pub open spec fn reaches_install(q: Request, r: Responses) -> bool {
    pre_install_verdict(q.expected_unique_name, q.check_remote, r.registry) is None
        && source_resolves(q, r)
}

/// The tag that the installed version is compared with: the release's, in a
/// run on a repository; none otherwise.
pub open spec fn checked_tag(q: Request, r: Responses) -> Option<Seq<char>> {
    match q.command {
        SourceView::Repo { .. } => match r.release {
            Some(rel) => Some(rel.tag_name),
            None => None,
        },
        _ => None,
    }
}

/// Whether the installed version passes: there is no tag to compare it with,
/// or it agrees with the tag.
pub open spec fn version_passes(q: Request, r: Responses, manifest: ManifestView) -> bool {
    checked_tag(q, r) is None || version_verdict(checked_tag(q, r)->0, manifest.version) is None
}

/// A run that gets as far as installing, and installs, ends as the checks on
/// the installed manifest say.
pub proof fn lemma_run_after_install(q: Request, r: Responses)
    requires
        reaches_install(q, r),
        r.installed is Ok,
    ensures
        run_report(q, r).error == post_install_verdict(
            checked_tag(q, r),
            q.expected_unique_name,
            q.check_remote,
            r.registry,
            r.installed->Ok_0,
        ),
{
    lemma_run_gives_verdict(q, r);
}

/// The first declared dependency, from `from` on, that the registry lacks is
/// reported exactly when there is one.
pub proof fn lemma_first_missing(deps: Seq<Seq<char>>, reg: Map<Seq<char>, Seq<char>>, from: int)
    requires
        0 <= from,
    ensures
        first_missing_from(deps, reg, from) is Some <==> exists|i: int|
            from <= i < deps.len() && !has_key(reg, #[trigger] deps[i]),
        first_missing_from(deps, reg, from) is Some ==> !has_key(
            reg,
            first_missing_from(deps, reg, from)->0,
        ),
    decreases deps.len() - from,
{
    if from < deps.len() {
        if !has_key(reg, deps[from]) {
        } else {
            lemma_first_missing(deps, reg, from + 1);
        }
    }
}

/// A run that installs a manifest with a dependency the registry lacks
/// fails, whatever else holds. Where it gets as far as the dependency check,
/// it fails on the first such dependency, and that is the run's error: no
/// check comes after it.
pub proof fn lemma_missing_dependency_fails(q: Request, r: Responses, i: int)
    requires
        r.installed is Ok,
        r.installed->Ok_0.dependencies is Some,
        0 <= i < r.installed->Ok_0.dependencies->0.len(),
        !has_key(r.registry, r.installed->Ok_0.dependencies->0[i]),
    ensures
        run_report(q, r).error is Some,
        reaches_install(q, r) && version_passes(q, r, r.installed->Ok_0)
            && name_resolution_verdict(
            q.expected_unique_name,
            q.check_remote,
            r.registry,
            r.installed->Ok_0.unique_name,
        ) is None ==> {
            let deps = r.installed->Ok_0.dependencies->0;
            &&& first_missing_from(deps, r.registry, 0) is Some
            &&& run_report(q, r).error == Some(
                ErrorView::MissingDependency(first_missing_from(deps, r.registry, 0)->0),
            )
            &&& (forall|j: int| 0 <= j < i ==> has_key(r.registry, #[trigger] deps[j]))
                ==> run_report(q, r).error == Some(ErrorView::MissingDependency(deps[i]))
        },
{
    lemma_run_gives_verdict(q, r);
    let deps = r.installed->Ok_0.dependencies->0;
    lemma_first_missing(deps, r.registry, 0);
    if forall|j: int| 0 <= j < i ==> has_key(r.registry, #[trigger] deps[j]) {
        lemma_first_missing_at(deps, r.registry, 0, i);
    }
}

/// Where every dependency from `from` up to `i` is registered and the one at
/// `i` is not, the one at `i` is the first that is missing.
pub proof fn lemma_first_missing_at(
    deps: Seq<Seq<char>>,
    reg: Map<Seq<char>, Seq<char>>,
    from: int,
    i: int,
)
    requires
        0 <= from <= i < deps.len(),
        !has_key(reg, deps[i]),
        forall|j: int| from <= j < i ==> has_key(reg, #[trigger] deps[j]),
    ensures
        first_missing_from(deps, reg, from) == Some(deps[i]),
    decreases i - from,
{
    if from < i {
        assert(has_key(reg, deps[from]));
        lemma_first_missing_at(deps, reg, from + 1, i);
    }
}

/// Where a unique name is expected and the installed manifest carries
/// another, the run fails, whether or not the registry is consulted. Where
/// it gets as far as that comparison, its error names both.
pub proof fn lemma_unexpected_unique_name(q: Request, r: Responses)
    requires
        q.expected_unique_name is Some,
        r.installed is Ok,
        r.installed->Ok_0.unique_name != q.expected_unique_name->0,
    ensures
        run_report(q, r).error is Some,
        reaches_install(q, r) && version_passes(q, r, r.installed->Ok_0) ==> run_report(
            q,
            r,
        ).error == Some(
            ErrorView::UnexpectedUniqueName {
                expected: q.expected_unique_name->0,
                actual: r.installed->Ok_0.unique_name,
            },
        ),
{
    lemma_run_gives_verdict(q, r);
}

/// Where the registry is not consulted, no run fails on a name being in use,
/// before or after installation, and what the registry holds under the
/// expected or the installed name changes nothing; the comparison with an
/// expected name is made all the same.
pub proof fn lemma_skip_exists(q: Request, r: Responses)
    requires
        !q.check_remote,
    ensures
        pre_install_verdict(q.expected_unique_name, q.check_remote, r.registry) is None,
        !(run_report(q, r).error is Some && run_report(q, r).error->0 is UniqueNameInUse),
        forall|actual: Seq<char>|
            #[trigger] name_resolution_verdict(
                q.expected_unique_name,
                q.check_remote,
                r.registry,
                actual,
            ) == match q.expected_unique_name {
                Some(name) => unique_name_verdict(actual, name),
                None => None,
            },
{
    lemma_run_gives_verdict(q, r);
}

/// With an expected name, the comparison after installation is the same
/// whether or not the registry is consulted.
pub proof fn lemma_exact_match_never_skipped(
    expected: Seq<char>,
    reg: Map<Seq<char>, Seq<char>>,
    actual: Seq<char>,
)
    ensures
        name_resolution_verdict(Some(expected), true, reg, actual) == name_resolution_verdict(
            Some(expected),
            false,
            reg,
            actual,
        ),
        name_resolution_verdict(Some(expected), false, reg, actual) == unique_name_verdict(
            actual,
            expected,
        ),
{
}

/// One `v` in front of a version that does not itself begin with `v` makes
/// no difference to the version check, on either side or on both.
pub proof fn lemma_leading_v_ignored(s: Seq<char>)
    requires
        s.len() == 0 || s[0] != 'v',
    ensures
        version_verdict(seq!['v'] + s, s) is None,
        version_verdict(s, seq!['v'] + s) is None,
        version_verdict(seq!['v'] + s, seq!['v'] + s) is None,
        version_verdict(s, s) is None,
{
    let vs = seq!['v'] + s;
    assert(vs.subrange(1, vs.len() as int) =~= s);
}

/// The version check passes exactly when tag and version agree once one
/// leading `v` is taken from each; where they do not, the error carries both
/// as they were compared.
pub proof fn lemma_version_check(tag: Seq<char>, version: Seq<char>)
    ensures
        version_verdict(tag, version) is None <==> strip_v(tag) == strip_v(version),
        version_verdict(tag, version) is Some ==> version_verdict(tag, version) == Some(
            ErrorView::UnexpectedVersion { expected: strip_v(tag), actual: strip_v(version) },
        ),
{
}

/// The sandbox is removed on every way out of resolving, installing and
/// checking: from there the controller asks for more work of that kind or
/// for the removal, and it finishes only after the removal. The one run that
/// finishes without it is the one that the check before installation ends,
/// in which the sandbox was never used.
pub proof fn lemma_cleanup_on_every_path(s: PipelineView, e: EventView)
    requires
        step_spec(s, e) is Some,
    ensures
        ({
            let (s1, a) = step_spec(s, e)->0;
            &&& (a is Finish <==> s1.phase == Phase::Done)
            &&& (a is Cleanup <==> s1.phase == Phase::Cleanup)
            &&& (a is Finish ==> s.phase == Phase::Cleanup || (s.phase == Phase::FetchRegistry
                && s1.error is Some && s1.error == pre_install_verdict(
                s.expected_unique_name,
                s.check_remote,
                s1.registry,
            )))
            &&& (s.phase != Phase::FetchRegistry && s.phase != Phase::Cleanup && s1.error
                != s.error ==> a is Cleanup)
        }),
{
}

/// No step takes a warning away or changes one: the warnings before a step
/// are the first of the warnings after it.
pub proof fn lemma_warnings_only_grow(s: PipelineView, e: EventView)
    requires
        step_spec(s, e) is Some,
    ensures
        ({
            let (s1, a) = step_spec(s, e)->0;
            &&& s1.warnings.len() >= s.warnings.len()
            &&& s1.warnings.subrange(0, s.warnings.len() as int) == s.warnings
        }),
{
    let (s1, a) = step_spec(s, e)->0;
    assert(s1.warnings.subrange(0, s.warnings.len() as int) =~= s.warnings);
}

} // verus!
