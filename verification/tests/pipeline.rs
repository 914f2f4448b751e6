use std::path::PathBuf;

use mods_checker::cli::CheckerSubcommand;
use mods_checker::kinds::{CheckerError, CheckerWarning};
use mods_checker::model::{
    LocalPackage, ModManifest, RegistrySnapshot, ReleaseAsset, ReleaseMetadata,
};
use mods_checker::pipeline::{Action, Event, Phase, Pipeline};
use mods_checker::report::RawResult;

#[derive(Clone)]
struct Answers {
    registry: Vec<(String, String)>,
    repo_exists: bool,
    release: Option<ReleaseMetadata>,
    description: Option<String>,
    has_readme: bool,
    installed: Result<ModManifest, String>,
}

fn answers(installed: Result<ModManifest, String>) -> Answers {
    Answers {
        registry: vec![
            ("dep.one".to_string(), "Dep One".to_string()),
            ("taken.name".to_string(), "Taken".to_string()),
        ],
        repo_exists: true,
        release: Some(ReleaseMetadata {
            tag_name: "v1.2.3".to_string(),
            assets: vec![
                ReleaseAsset {
                    name: "source.tar.gz".to_string(),
                    download_url: "https://h/source.tar.gz".to_string(),
                },
                ReleaseAsset {
                    name: "mod.zip".to_string(),
                    download_url: "https://h/mod.zip".to_string(),
                },
            ],
        }),
        description: Some("A mod".to_string()),
        has_readme: true,
        installed,
    }
}

fn good_manifest() -> ModManifest {
    ModManifest {
        unique_name: "foo.bar".to_string(),
        version: "1.2.3".to_string(),
        dependencies: Some(vec!["dep.one".to_string()]),
        filename: Some("Foo.dll".to_string()),
    }
}

fn repo() -> CheckerSubcommand {
    CheckerSubcommand::Repo { repo: "owner/name".to_string() }
}

fn file() -> CheckerSubcommand {
    CheckerSubcommand::File { file: PathBuf::from("/tmp/mod.zip") }
}

/// Answers each piece of work from `a` and returns the report with the work
/// that was asked for, in order.
fn drive(
    command: CheckerSubcommand,
    expected: Option<&str>,
    check_remote: bool,
    a: &Answers,
) -> (RawResult, Vec<Action>) {
    let mut pipeline = Pipeline::new(command, expected.map(|s| s.to_string()), check_remote);
    let mut asked = vec![];
    let mut action = pipeline.step(Event::Begin).unwrap();
    for _ in 0..10 {
        asked.push(action.clone());
        let event = match &action {
            Action::FetchRegistry => {
                let mut reg = RegistrySnapshot::new();
                for (k, v) in &a.registry {
                    reg.insert(k.clone(), v.clone());
                }
                Event::Registry(reg)
            }
            Action::LookupRepo { .. } => Event::RepoLookup(a.repo_exists),
            Action::FetchLatestRelease { .. } => Event::LatestRelease(a.release.clone()),
            Action::FetchRepoDetails { .. } => Event::RepoDetails {
                description: a.description.clone(),
                has_readme: a.has_readme,
            },
            Action::InstallFromUrl { .. } | Action::InstallFromFile { .. } => {
                Event::Installed(a.installed.clone().map(|manifest| LocalPackage {
                    manifest,
                    sandbox_path: "/sandbox".to_string(),
                }))
            }
            Action::Cleanup => Event::CleanedUp,
            Action::Finish => break,
        };
        action = pipeline.step(event).unwrap();
    }
    assert!(pipeline.is_done());
    (pipeline.report(), asked)
}

#[test]
fn repo_run_reports_the_asset_url() {
    let (report, asked) = drive(repo(), None, true, &answers(Ok(good_manifest())));
    assert_eq!(report.error, None);
    assert_eq!(report.url, Some("https://h/mod.zip".to_string()));
    assert!(report.warnings.is_empty());
    assert_eq!(
        asked,
        vec![
            Action::FetchRegistry,
            Action::LookupRepo { owner: "owner".to_string(), name: "name".to_string() },
            Action::FetchLatestRelease { owner: "owner".to_string(), name: "name".to_string() },
            Action::FetchRepoDetails { owner: "owner".to_string(), name: "name".to_string() },
            Action::InstallFromUrl { url: "https://h/mod.zip".to_string() },
            Action::Cleanup,
            Action::Finish,
        ]
    );
}

#[test]
fn file_run_reports_no_url() {
    let (report, asked) = drive(file(), None, true, &answers(Ok(good_manifest())));
    assert_eq!(report, RawResult { url: None, warnings: vec![], error: None });
    assert_eq!(
        asked,
        vec![
            Action::FetchRegistry,
            Action::InstallFromFile { path: PathBuf::from("/tmp/mod.zip") },
            Action::Cleanup,
            Action::Finish,
        ]
    );
}

#[test]
fn url_run_reports_the_given_url() {
    let command = CheckerSubcommand::Url { url: "https://x/y.zip".to_string() };
    // The version is not compared: there is no release.
    let mut m = good_manifest();
    m.version = "9.9.9".to_string();
    let (report, asked) = drive(command, None, true, &answers(Ok(m)));
    assert_eq!(report.error, None);
    assert_eq!(report.url, Some("https://x/y.zip".to_string()));
    assert_eq!(asked[1], Action::InstallFromUrl { url: "https://x/y.zip".to_string() });
}

#[test]
fn pre_check_fails_before_any_installation() {
    let (report, asked) =
        drive(repo(), Some("taken.name"), true, &answers(Ok(good_manifest())));
    assert_eq!(report.error, Some(CheckerError::UniqueNameInUse("Taken".to_string())));
    assert_eq!(report.url, None);
    assert_eq!(asked, vec![Action::FetchRegistry, Action::Finish]);
}

#[test]
fn skip_exists_disables_pre_check_but_not_exact_match() {
    let mut m = good_manifest();
    m.unique_name = "other.name".to_string();
    let (report, _) = drive(file(), Some("taken.name"), false, &answers(Ok(m)));
    assert_eq!(
        report.error,
        Some(CheckerError::UnexpectedUniqueName {
            expected: "taken.name".to_string(),
            actual: "other.name".to_string()
        })
    );
    let mut m = good_manifest();
    m.unique_name = "taken.name".to_string();
    let (report, _) = drive(file(), Some("taken.name"), false, &answers(Ok(m.clone())));
    assert_eq!(report.error, None);
    let (report, _) = drive(file(), None, false, &answers(Ok(m.clone())));
    assert_eq!(report.error, None);
    let (report, _) = drive(file(), None, true, &answers(Ok(m)));
    assert_eq!(report.error, Some(CheckerError::UniqueNameInUse("Taken".to_string())));
}

#[test]
fn unexpected_unique_name_fails_the_run() {
    let mut m = good_manifest();
    m.unique_name = "foo.baz".to_string();
    let (report, _) = drive(repo(), Some("foo.bar"), true, &answers(Ok(m)));
    assert_eq!(
        report.error,
        Some(CheckerError::UnexpectedUniqueName {
            expected: "foo.bar".to_string(),
            actual: "foo.baz".to_string()
        })
    );
    assert_eq!(report.url, None);
}

#[test]
fn missing_dependency_fails_the_run() {
    let mut m = good_manifest();
    m.dependencies = Some(vec!["dep.one".to_string(), "dep.gone".to_string()]);
    let (report, asked) = drive(repo(), None, true, &answers(Ok(m)));
    assert_eq!(report.error, Some(CheckerError::MissingDependency("dep.gone".to_string())));
    assert_eq!(report.url, None);
    assert_eq!(asked[asked.len() - 2..], [Action::Cleanup, Action::Finish]);
}

#[test]
fn version_mismatch_fails_a_repo_run() {
    let mut m = good_manifest();
    m.version = "1.2.4".to_string();
    let (report, _) = drive(repo(), None, true, &answers(Ok(m)));
    assert_eq!(
        report.error,
        Some(CheckerError::UnexpectedVersion {
            expected: "1.2.3".to_string(),
            actual: "1.2.4".to_string()
        })
    );
}

#[test]
fn resolver_errors() {
    let mut a = answers(Ok(good_manifest()));
    a.repo_exists = false;
    let (report, asked) = drive(repo(), None, true, &a);
    assert_eq!(report.error, Some(CheckerError::MissingRepo));
    assert_eq!(asked.len(), 4);
    assert_eq!(asked[2], Action::Cleanup);

    let mut a = answers(Ok(good_manifest()));
    a.release = None;
    let (report, _) = drive(repo(), None, true, &a);
    assert_eq!(report.error, Some(CheckerError::MissingRelease));

    let mut a = answers(Ok(good_manifest()));
    a.release = Some(ReleaseMetadata { tag_name: "v1.2.3".to_string(), assets: vec![] });
    a.description = None;
    let (report, _) = drive(repo(), None, true, &a);
    assert_eq!(report.error, Some(CheckerError::MissingModAsset));
    // The description is looked at only once an asset was selected.
    assert!(report.warnings.is_empty());

    let command = CheckerSubcommand::Repo { repo: "no-slash".to_string() };
    let (report, asked) = drive(command, None, true, &answers(Ok(good_manifest())));
    assert_eq!(report.error, Some(CheckerError::MissingRelease));
    assert_eq!(asked, vec![Action::FetchRegistry, Action::Cleanup, Action::Finish]);
}

#[test]
fn install_failure_keeps_warnings() {
    let mut a = answers(Err("bad archive".to_string()));
    a.description = Some(String::new());
    a.has_readme = false;
    let (report, _) = drive(repo(), None, true, &a);
    assert_eq!(report.error, Some(CheckerError::FailedToInstall("bad archive".to_string())));
    assert_eq!(
        report.warnings,
        vec![CheckerWarning::MissingDescription, CheckerWarning::MissingReadme]
    );
    assert_eq!(report.url, None);
}

#[test]
fn warnings_do_not_fail_a_run() {
    let mut a = answers(Ok(good_manifest()));
    a.description = None;
    let (report, _) = drive(repo(), None, true, &a);
    assert_eq!(report.error, None);
    assert!(!report.is_failure());
    assert_eq!(report.warnings, vec![CheckerWarning::MissingDescription]);
    assert_eq!(report.url, Some("https://h/mod.zip".to_string()));
}

#[test]
fn repeated_runs_give_the_same_record() {
    let mut a = answers(Ok(good_manifest()));
    a.has_readme = false;
    let (first, _) = drive(repo(), Some("foo.bar"), true, &a);
    let (second, _) = drive(repo(), Some("foo.bar"), true, &a);
    assert_eq!(first, second);
    assert_eq!(first.record(), second.record());
    assert_eq!(first.markdown(), second.markdown());
}

#[test]
fn unexpected_event_changes_nothing() {
    let mut pipeline = Pipeline::new(file(), None, true);
    assert_eq!(pipeline.step(Event::CleanedUp), None);
    assert_eq!(pipeline.phase, Phase::Start);
    assert_eq!(pipeline.step(Event::Begin), Some(Action::FetchRegistry));
    assert_eq!(pipeline.phase, Phase::FetchRegistry);
    assert_eq!(pipeline.step(Event::Begin), None);
    assert_eq!(pipeline.step(Event::RepoLookup(true)), None);
    assert_eq!(pipeline.phase, Phase::FetchRegistry);
    assert!(!pipeline.is_done());
    assert_eq!(pipeline.repository(), None);
}
