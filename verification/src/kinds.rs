//! The two tiers of findings: fatal errors, which end a run, and warnings,
//! which are gathered while it goes on.

use vstd::prelude::*;
use vstd::string::*;

verus! {

/// A non-fatal finding: it is reported and the run goes on.
#[derive(Clone, Copy, Debug, PartialEq, Eq, Structural)]
pub enum CheckerWarning {
    MissingDescription,
    MissingReadme,
}

/// A fatal finding: the first one ends the run and is the run's single error.
#[derive(Clone, Debug, PartialEq, Eq)]
pub enum CheckerError {
    UniqueNameInUse(String),
    MissingRepo,
    MissingRelease,
    MissingModAsset,
    FailedToInstall(String),
    UnexpectedUniqueName { expected: String, actual: String },
    UnexpectedVersion { expected: String, actual: String },
    MissingDLL,
    InvalidDLL(String),
    MissingDependency(String),
}

/// The view of a `CheckerError`: the same variants over sequences of
/// characters.
pub enum ErrorView {
    UniqueNameInUse(Seq<char>),
    MissingRepo,
    MissingRelease,
    MissingModAsset,
    FailedToInstall(Seq<char>),
    UnexpectedUniqueName { expected: Seq<char>, actual: Seq<char> },
    UnexpectedVersion { expected: Seq<char>, actual: Seq<char> },
    MissingDLL,
    InvalidDLL(Seq<char>),
    MissingDependency(Seq<char>),
}

impl View for CheckerError {
    type V = ErrorView;

    open spec fn view(&self) -> ErrorView {
        match *self {
            CheckerError::UniqueNameInUse(s) => ErrorView::UniqueNameInUse(s@),
            CheckerError::MissingRepo => ErrorView::MissingRepo,
            CheckerError::MissingRelease => ErrorView::MissingRelease,
            CheckerError::MissingModAsset => ErrorView::MissingModAsset,
            CheckerError::FailedToInstall(s) => ErrorView::FailedToInstall(s@),
            CheckerError::UnexpectedUniqueName { expected, actual } => {
                ErrorView::UnexpectedUniqueName { expected: expected@, actual: actual@ }
            },
            CheckerError::UnexpectedVersion { expected, actual } => {
                ErrorView::UnexpectedVersion { expected: expected@, actual: actual@ }
            },
            CheckerError::MissingDLL => ErrorView::MissingDLL,
            CheckerError::InvalidDLL(s) => ErrorView::InvalidDLL(s@),
            CheckerError::MissingDependency(s) => ErrorView::MissingDependency(s@),
        }
    }
}

/// The view of an optional error.
pub open spec fn opt_error(o: Option<CheckerError>) -> Option<ErrorView> {
    match o {
        Some(e) => Some(e@),
        None => None,
    }
}

/// The message of a warning.
pub open spec fn warning_message(w: CheckerWarning) -> Seq<char> {
    match w {
        CheckerWarning::MissingDescription => "This mod's repo doesn't have a description, the description is used on the manager and website to describe your mod"@,
        CheckerWarning::MissingReadme => "This mod's repo doesn't have a README, the README is used on the website to describe your mod"@,
    }
}

/// The stable identifier of a warning's kind.
pub open spec fn warning_identifier(w: CheckerWarning) -> Seq<char> {
    match w {
        CheckerWarning::MissingDescription => "MissingDescription"@,
        CheckerWarning::MissingReadme => "MissingReadme"@,
    }
}

/// The message of an error, with its parameters filled in.
pub open spec fn error_message(e: ErrorView) -> Seq<char> {
    match e {
        ErrorView::UniqueNameInUse(name) => {
            "This unique name appears to be in use by another mod ("@ + name
                + "), please choose a different one"@
        },
        ErrorView::MissingRepo => "This mod's repo doesn't appear to exist"@,
        ErrorView::MissingRelease => "This mod appears to be missing a release, did you forget to publish it?"@,
        ErrorView::MissingModAsset => "This mod has a release, but it's missing the mod asset, make sure you've uploaded a ZIP file"@,
        ErrorView::FailedToInstall(detail) => "This mod failed to install when testing it: "@
            + detail,
        ErrorView::UnexpectedUniqueName { expected, actual } => {
            "The unique name of this mod is not what was expected, expected "@ + expected
                + ", got "@ + actual
        },
        ErrorView::UnexpectedVersion { expected, actual } => {
            "The version of this mod's manifest does not match the tag of the release, expected "@
                + expected + ", got "@ + actual
        },
        ErrorView::MissingDLL => "This mod's manifest doesn't define a DLL file"@,
        ErrorView::InvalidDLL(path) => "This mod's manifest defines a DLL file that doesn't exist: "@
            + path,
        ErrorView::MissingDependency(name) => "This mod depends on another mod that seemingly doesn't exist: "@
            + name,
    }
}

/// The stable identifier of an error's kind: it does not depend on the
/// parameters.
pub open spec fn error_identifier(e: ErrorView) -> Seq<char> {
    match e {
        ErrorView::UniqueNameInUse(_) => "UniqueNameInUse"@,
        ErrorView::MissingRepo => "MissingRepo"@,
        ErrorView::MissingRelease => "MissingRelease"@,
        ErrorView::MissingModAsset => "MissingModAsset"@,
        ErrorView::FailedToInstall(_) => "FailedToInstall"@,
        ErrorView::UnexpectedUniqueName { .. } => "UnexpectedUniqueName"@,
        ErrorView::UnexpectedVersion { .. } => "UnexpectedVersion"@,
        ErrorView::MissingDLL => "MissingDLL"@,
        ErrorView::InvalidDLL(_) => "InvalidDLL"@,
        ErrorView::MissingDependency(_) => "MissingDependency"@,
    }
}

impl CheckerWarning {
    /// The text shown to a person for this warning.
    pub fn message(&self) -> (r: String)
        ensures
            r@ == warning_message(*self),
    {
        match self {
            CheckerWarning::MissingDescription => String::from_str(
                "This mod's repo doesn't have a description, the description is used on the manager and website to describe your mod",
            ),
            CheckerWarning::MissingReadme => String::from_str(
                "This mod's repo doesn't have a README, the README is used on the website to describe your mod",
            ),
        }
    }

    /// The name by which automation tells this kind of warning from the others.
    pub fn identifier(&self) -> (r: String)
        ensures
            r@ == warning_identifier(*self),
    {
        match self {
            CheckerWarning::MissingDescription => String::from_str("MissingDescription"),
            CheckerWarning::MissingReadme => String::from_str("MissingReadme"),
        }
    }
}

impl CheckerError {
    /// The text shown to a person for this error.
    pub fn message(&self) -> (r: String)
        ensures
            r@ == error_message(self@),
    {
        match self {
            CheckerError::UniqueNameInUse(name) => {
                let mut s = String::from_str(
                    "This unique name appears to be in use by another mod (",
                );
                s.append(name.as_str());
                s.append("), please choose a different one");
                s
            },
            CheckerError::MissingRepo => String::from_str(
                "This mod's repo doesn't appear to exist",
            ),
            CheckerError::MissingRelease => String::from_str(
                "This mod appears to be missing a release, did you forget to publish it?",
            ),
            CheckerError::MissingModAsset => String::from_str(
                "This mod has a release, but it's missing the mod asset, make sure you've uploaded a ZIP file",
            ),
            CheckerError::FailedToInstall(detail) => {
                let mut s = String::from_str("This mod failed to install when testing it: ");
                s.append(detail.as_str());
                s
            },
            CheckerError::UnexpectedUniqueName { expected, actual } => {
                let mut s = String::from_str(
                    "The unique name of this mod is not what was expected, expected ",
                );
                s.append(expected.as_str());
                s.append(", got ");
                s.append(actual.as_str());
                s
            },
            CheckerError::UnexpectedVersion { expected, actual } => {
                let mut s = String::from_str(
                    "The version of this mod's manifest does not match the tag of the release, expected ",
                );
                s.append(expected.as_str());
                s.append(", got ");
                s.append(actual.as_str());
                s
            },
            CheckerError::MissingDLL => String::from_str(
                "This mod's manifest doesn't define a DLL file",
            ),
            CheckerError::InvalidDLL(path) => {
                let mut s = String::from_str(
                    "This mod's manifest defines a DLL file that doesn't exist: ",
                );
                s.append(path.as_str());
                s
            },
            CheckerError::MissingDependency(name) => {
                let mut s = String::from_str(
                    "This mod depends on another mod that seemingly doesn't exist: ",
                );
                s.append(name.as_str());
                s
            },
        }
    }

    /// The name by which automation tells this kind of error from the others.
    pub fn identifier(&self) -> (r: String)
        ensures
            r@ == error_identifier(self@),
    {
        match self {
            CheckerError::UniqueNameInUse(_) => String::from_str("UniqueNameInUse"),
            CheckerError::MissingRepo => String::from_str("MissingRepo"),
            CheckerError::MissingRelease => String::from_str("MissingRelease"),
            CheckerError::MissingModAsset => String::from_str("MissingModAsset"),
            CheckerError::FailedToInstall(_) => String::from_str("FailedToInstall"),
            CheckerError::UnexpectedUniqueName { .. } => String::from_str("UnexpectedUniqueName"),
            CheckerError::UnexpectedVersion { .. } => String::from_str("UnexpectedVersion"),
            CheckerError::MissingDLL => String::from_str("MissingDLL"),
            CheckerError::InvalidDLL(_) => String::from_str("InvalidDLL"),
            CheckerError::MissingDependency(_) => String::from_str("MissingDependency"),
        }
    }
}

} // verus!
