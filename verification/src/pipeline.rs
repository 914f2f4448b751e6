//! The controller of one run. The outside work (fetching the registry,
//! asking the repository host, installing, removing the sandbox) is done by
//! the caller; the controller says which piece of work comes next and decides
//! on what came back.

use std::path::PathBuf;
use vstd::prelude::*;
use crate::checks::{
    check_for_description_and_readme, mod_asset, post_install_checks, post_install_verdict,
    pre_install_check, pre_install_verdict, repo_warnings, select_mod_asset,
};
use crate::cli::{CheckerSubcommand, SourceView};
use crate::kinds::{opt_error, CheckerError, CheckerWarning, ErrorView};
use crate::model::{
    LocalPackage, ManifestView, RegistrySnapshot, ReleaseMetadata, ReleaseView,
};
use crate::report::{RawResult, ReportView};
use crate::text::{opt_text, split_reference, split_repo_reference};

verus! {

/// Where a run stands: the piece of outside work it waits for.
#[derive(Clone, Copy, Debug, PartialEq, Eq, Structural)]
pub enum Phase {
    /// Nothing has been asked for yet.
    Start,
    /// Waiting for the registry snapshot.
    FetchRegistry,
    /// Waiting to hear whether the repository exists.
    LookupRepo,
    /// Waiting for the repository's latest release.
    FetchRelease,
    /// Waiting for the repository's description and readme.
    FetchDetails,
    /// Waiting for the installer.
    Install,
    /// Waiting for the sandbox to be removed.
    Cleanup,
    /// The report is ready.
    Done,
}

/// The piece of outside work that the controller asks for next.
#[derive(Clone, Debug, PartialEq, Eq)]
pub enum Action {
    FetchRegistry,
    LookupRepo { owner: String, name: String },
    FetchLatestRelease { owner: String, name: String },
    FetchRepoDetails { owner: String, name: String },
    InstallFromUrl { url: String },
    InstallFromFile { path: PathBuf },
    Cleanup,
    /// Nothing more: take the report.
    Finish,
}

/// The view of an `Action`.
pub enum ActionView {
    FetchRegistry,
    LookupRepo { owner: Seq<char>, name: Seq<char> },
    FetchLatestRelease { owner: Seq<char>, name: Seq<char> },
    FetchRepoDetails { owner: Seq<char>, name: Seq<char> },
    InstallFromUrl { url: Seq<char> },
    InstallFromFile { path: PathBuf },
    Cleanup,
    Finish,
}

impl View for Action {
    type V = ActionView;

    open spec fn view(&self) -> ActionView {
        match *self {
            Action::FetchRegistry => ActionView::FetchRegistry,
            Action::LookupRepo { owner, name } => ActionView::LookupRepo {
                owner: owner@,
                name: name@,
            },
            Action::FetchLatestRelease { owner, name } => ActionView::FetchLatestRelease {
                owner: owner@,
                name: name@,
            },
            Action::FetchRepoDetails { owner, name } => ActionView::FetchRepoDetails {
                owner: owner@,
                name: name@,
            },
            Action::InstallFromUrl { url } => ActionView::InstallFromUrl { url: url@ },
            Action::InstallFromFile { path } => ActionView::InstallFromFile { path },
            Action::Cleanup => ActionView::Cleanup,
            Action::Finish => ActionView::Finish,
        }
    }
}

/// What the outside work gave back.
pub enum Event {
    /// The run is to begin.
    Begin,
    Registry(RegistrySnapshot),
    /// Whether the repository exists.
    RepoLookup(bool),
    /// The latest release, or `None` where the repository has none.
    LatestRelease(Option<ReleaseMetadata>),
    RepoDetails { description: Option<String>, has_readme: bool },
    /// The installed package, or the installer's account of its failure.
    Installed(Result<LocalPackage, String>),
    CleanedUp,
}

/// The view of an `Event`.
pub enum EventView {
    Begin,
    Registry(Map<Seq<char>, Seq<char>>),
    RepoLookup(bool),
    LatestRelease(Option<ReleaseView>),
    RepoDetails { description: Option<Seq<char>>, has_readme: bool },
    Installed(Result<ManifestView, Seq<char>>),
    CleanedUp,
}

impl View for Event {
    type V = EventView;

    open spec fn view(&self) -> EventView {
        match *self {
            Event::Begin => EventView::Begin,
            Event::Registry(reg) => EventView::Registry(reg@),
            Event::RepoLookup(exists) => EventView::RepoLookup(exists),
            Event::LatestRelease(release) => EventView::LatestRelease(
                match release {
                    Some(r) => Some(r@),
                    None => None,
                },
            ),
            Event::RepoDetails { description, has_readme } => EventView::RepoDetails {
                description: opt_text(description),
                has_readme,
            },
            Event::Installed(res) => EventView::Installed(
                match res {
                    Ok(package) => Ok(package.manifest@),
                    Err(detail) => Err(detail@),
                },
            ),
            Event::CleanedUp => EventView::CleanedUp,
        }
    }
}

/// The state of one run.
pub struct Pipeline {
    pub command: CheckerSubcommand,
    pub expected_unique_name: Option<String>,
    pub check_remote: bool,
    pub phase: Phase,
    pub registry: RegistrySnapshot,
    /// The tag of the release, once a repository's release was selected.
    pub tag_name: Option<String>,
    /// The address the package is installed from, once it is known.
    pub url: Option<String>,
    pub warnings: Vec<CheckerWarning>,
    pub error: Option<CheckerError>,
}

/// The view of a `Pipeline`.
pub struct PipelineView {
    pub command: SourceView,
    pub expected_unique_name: Option<Seq<char>>,
    pub check_remote: bool,
    pub phase: Phase,
    pub registry: Map<Seq<char>, Seq<char>>,
    pub tag_name: Option<Seq<char>>,
    pub url: Option<Seq<char>>,
    pub warnings: Seq<CheckerWarning>,
    pub error: Option<ErrorView>,
}

impl View for Pipeline {
    type V = PipelineView;

    open spec fn view(&self) -> PipelineView {
        PipelineView {
            command: self.command@,
            expected_unique_name: opt_text(self.expected_unique_name),
            check_remote: self.check_remote,
            phase: self.phase,
            registry: self.registry@,
            tag_name: opt_text(self.tag_name),
            url: opt_text(self.url),
            warnings: self.warnings@,
            error: opt_error(self.error),
        }
    }
}

/// The state in which a run begins.
pub open spec fn initial_state(
    command: SourceView,
    expected_unique_name: Option<Seq<char>>,
    check_remote: bool,
) -> PipelineView {
    PipelineView {
        command,
        expected_unique_name,
        check_remote,
        phase: Phase::Start,
        registry: Map::empty(),
        tag_name: None,
        url: None,
        warnings: Seq::empty(),
        error: None,
    }
}

/// The owner and the name of the repository a run was given, if it was given
/// a well-formed reference to one.
pub open spec fn repo_parts(command: SourceView) -> Option<(Seq<char>, Seq<char>)> {
    match command {
        SourceView::Repo { repo } => split_reference(repo),
        _ => None,
    }
}

/// A fatal error after the sandbox came into use: the error is kept and the
/// sandbox is removed next.
pub open spec fn abort(s: PipelineView, e: ErrorView) -> (PipelineView, ActionView) {
    (PipelineView { phase: Phase::Cleanup, error: Some(e), ..s }, ActionView::Cleanup)
}

/// The first step of resolving the source, once the registry is there and the
/// check before installation has passed.
pub open spec fn begin_resolve(s: PipelineView) -> (PipelineView, ActionView) {
    match s.command {
        SourceView::Repo { repo } => match split_reference(repo) {
            Some((owner, name)) => (
                PipelineView { phase: Phase::LookupRepo, ..s },
                ActionView::LookupRepo { owner, name },
            ),
            None => abort(s, ErrorView::MissingRelease),
        },
        SourceView::Url { url } => (
            PipelineView { phase: Phase::Install, url: Some(url), ..s },
            ActionView::InstallFromUrl { url },
        ),
        SourceView::File { file } => (
            PipelineView { phase: Phase::Install, ..s },
            ActionView::InstallFromFile { path: file },
        ),
    }
}

/// The decision on one event: the next state and the next piece of outside
/// work, or `None` where the event is not the one the state waits for.
pub open spec fn step_spec(s: PipelineView, e: EventView) -> Option<(PipelineView, ActionView)> {
    match (s.phase, e) {
        (Phase::Start, EventView::Begin) => Some(
            (PipelineView { phase: Phase::FetchRegistry, ..s }, ActionView::FetchRegistry),
        ),
        (Phase::FetchRegistry, EventView::Registry(reg)) => {
            let s1 = PipelineView { registry: reg, ..s };
            match pre_install_verdict(s.expected_unique_name, s.check_remote, reg) {
                Some(err) => Some(
                    (PipelineView { phase: Phase::Done, error: Some(err), ..s1 }, ActionView::Finish),
                ),
                None => Some(begin_resolve(s1)),
            }
        },
        (Phase::LookupRepo, EventView::RepoLookup(exists)) => match repo_parts(s.command) {
            Some((owner, name)) => if exists {
                Some(
                    (
                        PipelineView { phase: Phase::FetchRelease, ..s },
                        ActionView::FetchLatestRelease { owner, name },
                    ),
                )
            } else {
                Some(abort(s, ErrorView::MissingRepo))
            },
            None => None,
        },
        (Phase::FetchRelease, EventView::LatestRelease(release)) => match repo_parts(s.command) {
            Some((owner, name)) => match release {
                Some(rel) => match mod_asset(rel.assets) {
                    Some(url) => Some(
                        (
                            PipelineView {
                                phase: Phase::FetchDetails,
                                tag_name: Some(rel.tag_name),
                                url: Some(url),
                                ..s
                            },
                            ActionView::FetchRepoDetails { owner, name },
                        ),
                    ),
                    None => Some(abort(s, ErrorView::MissingModAsset)),
                },
                None => Some(abort(s, ErrorView::MissingRelease)),
            },
            None => None,
        },
        (Phase::FetchDetails, EventView::RepoDetails { description, has_readme }) => match s.url {
            Some(url) => Some(
                (
                    PipelineView {
                        phase: Phase::Install,
                        warnings: s.warnings + repo_warnings(description, has_readme),
                        ..s
                    },
                    ActionView::InstallFromUrl { url },
                ),
            ),
            None => None,
        },
        (Phase::Install, EventView::Installed(res)) => match res {
            Ok(manifest) => Some(
                (
                    PipelineView {
                        phase: Phase::Cleanup,
                        error: post_install_verdict(
                            s.tag_name,
                            s.expected_unique_name,
                            s.check_remote,
                            s.registry,
                            manifest,
                        ),
                        ..s
                    },
                    ActionView::Cleanup,
                ),
            ),
            Err(detail) => Some(abort(s, ErrorView::FailedToInstall(detail))),
        },
        (Phase::Cleanup, EventView::CleanedUp) => Some(
            (PipelineView { phase: Phase::Done, ..s }, ActionView::Finish),
        ),
        _ => None,
    }
}

/// The report that a state gives: its warnings and its error, and the address
/// only where there is no error.
pub open spec fn report_of(s: PipelineView) -> ReportView {
    ReportView {
        url: if s.error is None {
            s.url
        } else {
            None
        },
        warnings: s.warnings,
        error: s.error,
    }
}

impl Pipeline {
    /// A run that has not begun.
    pub fn new(
        command: CheckerSubcommand,
        expected_unique_name: Option<String>,
        check_remote: bool,
    ) -> (r: Pipeline)
        ensures
            r@ == initial_state(command@, opt_text(expected_unique_name), check_remote),
    {
        let r = Pipeline {
            command,
            expected_unique_name,
            check_remote,
            phase: Phase::Start,
            registry: RegistrySnapshot::new(),
            tag_name: None,
            url: None,
            warnings: Vec::new(),
            error: None,
        };
        assert(r@.warnings =~= Seq::empty());
        r
    }

    /// Whether the report is ready.
    pub fn is_done(&self) -> (r: bool)
        ensures
            r == (self@.phase == Phase::Done),
    {
        self.phase == Phase::Done
    }

    /// The owner and the name of the repository this run was given.
    pub fn repository(&self) -> (r: Option<(String, String)>)
        ensures
            match r {
                Some((owner, name)) => repo_parts(self@.command) == Some((owner@, name@)),
                None => repo_parts(self@.command) is None,
            },
    {
        match &self.command {
            CheckerSubcommand::Repo { repo } => split_repo_reference(repo.as_str()),
            _ => None,
        }
    }

    /// Decides on one event. Where the event is the one the run waits for,
    /// the state moves on and the next piece of outside work is returned;
    /// where it is not, the state stays as it is and `None` is returned.
    pub fn step(&mut self, event: Event) -> (r: Option<Action>)
        ensures
            match step_spec(old(self)@, event@) {
                Some((s, a)) => r is Some && r->0@ == a && final(self)@ == s,
                None => r is None && final(self)@ == old(self)@,
            },
    {
        match (self.phase, event) {
            (Phase::Start, Event::Begin) => {
                self.phase = Phase::FetchRegistry;
                Some(Action::FetchRegistry)
            },
            (Phase::FetchRegistry, Event::Registry(reg)) => {
                self.registry = reg;
                match pre_install_check(
                    &self.expected_unique_name,
                    self.check_remote,
                    &self.registry,
                ) {
                    Err(e) => {
                        self.error = Some(e);
                        self.phase = Phase::Done;
                        Some(Action::Finish)
                    },
                    Ok(_) => Some(self.resolve()),
                }
            },
            (Phase::LookupRepo, Event::RepoLookup(exists)) => match self.repository() {
                Some((owner, name)) => {
                    if exists {
                        self.phase = Phase::FetchRelease;
                        Some(Action::FetchLatestRelease { owner, name })
                    } else {
                        Some(self.fail(CheckerError::MissingRepo))
                    }
                },
                None => None,
            },
            (Phase::FetchRelease, Event::LatestRelease(release)) => match self.repository() {
                Some((owner, name)) => match release {
                    Some(rel) => match select_mod_asset(&rel) {
                        Ok(url) => {
                            self.phase = Phase::FetchDetails;
                            self.tag_name = Some(rel.tag_name);
                            self.url = Some(url);
                            Some(Action::FetchRepoDetails { owner, name })
                        },
                        Err(e) => Some(self.fail(e)),
                    },
                    None => Some(self.fail(CheckerError::MissingRelease)),
                },
                None => None,
            },
            (Phase::FetchDetails, Event::RepoDetails { description, has_readme }) => {
                let url = match &self.url {
                    Some(u) => Some(u.clone()),
                    None => None,
                };
                match url {
                    Some(url) => {
                        check_for_description_and_readme(
                            &description,
                            has_readme,
                            &mut self.warnings,
                        );
                        self.phase = Phase::Install;
                        Some(Action::InstallFromUrl { url })
                    },
                    None => None,
                }
            },
            (Phase::Install, Event::Installed(res)) => match res {
                Ok(package) => {
                    let checked = post_install_checks(
                        &self.tag_name,
                        &self.expected_unique_name,
                        self.check_remote,
                        &self.registry,
                        &package.manifest,
                    );
                    self.error = match checked {
                        Ok(_) => None,
                        Err(e) => Some(e),
                    };
                    self.phase = Phase::Cleanup;
                    Some(Action::Cleanup)
                },
                Err(detail) => Some(self.fail(CheckerError::FailedToInstall(detail))),
            },
            (Phase::Cleanup, Event::CleanedUp) => {
                self.phase = Phase::Done;
                Some(Action::Finish)
            },
            _ => None,
        }
    }

    /// Keeps a fatal error and asks for the sandbox to be removed.
    fn fail(&mut self, error: CheckerError) -> (r: Action)
        ensures
            (final(self)@, r@) == abort(old(self)@, error@),
    {
        self.error = Some(error);
        self.phase = Phase::Cleanup;
        Action::Cleanup
    }

    /// Takes the first step of resolving the source.
    fn resolve(&mut self) -> (r: Action)
        ensures
            (final(self)@, r@) == begin_resolve(old(self)@),
    {
        let file = match &self.command {
            CheckerSubcommand::File { file } => Some(file.clone()),
            _ => None,
        };
        let url = match &self.command {
            CheckerSubcommand::Url { url } => Some(url.clone()),
            _ => None,
        };
        if let Some(path) = file {
            self.phase = Phase::Install;
            Action::InstallFromFile { path }
        } else if let Some(u) = url {
            self.url = Some(u.clone());
            self.phase = Phase::Install;
            Action::InstallFromUrl { url: u }
        } else {
            match self.repository() {
                Some((owner, name)) => {
                    self.phase = Phase::LookupRepo;
                    Action::LookupRepo { owner, name }
                },
                None => self.fail(CheckerError::MissingRelease),
            }
        }
    }

    /// The report of the run as it stands. It is the run's verdict once the
    /// run is done.
    pub fn report(self) -> (r: RawResult)
        ensures
            r@ == report_of(self@),
    {
        let url = if self.error.is_none() {
            self.url
        } else {
            None
        };
        RawResult { url, warnings: self.warnings, error: self.error }
    }
}

} // verus!
