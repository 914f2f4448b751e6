//! What one invocation asks for.

use std::path::PathBuf;
use vstd::prelude::*;

verus! {

/// A path of the file system. It is carried through as it was given; nothing
/// here looks inside it.
#[verifier::external_type_specification]
#[verifier::external_body]
pub struct ExPathBuf(std::path::PathBuf);

/// `PathBuf::clone` of std: the copy is the same path as the one it was made
/// from.
pub assume_specification[ <std::path::PathBuf as std::clone::Clone>::clone ](
    path: &std::path::PathBuf,
) -> (r: std::path::PathBuf)
    ensures
        r == *path,
;

/// Where the candidate package comes from.
#[derive(Clone, Debug, PartialEq, Eq)]
pub enum CheckerSubcommand {
    /// A source repository, written `owner/name`.
    Repo { repo: String },
    /// A direct download address.
    Url { url: String },
    /// An archive on the local disk.
    File { file: PathBuf },
}

/// The view of a `CheckerSubcommand`.
pub enum SourceView {
    Repo { repo: Seq<char> },
    Url { url: Seq<char> },
    File { file: PathBuf },
}

impl View for CheckerSubcommand {
    type V = SourceView;

    open spec fn view(&self) -> SourceView {
        match *self {
            CheckerSubcommand::Repo { repo } => SourceView::Repo { repo: repo@ },
            CheckerSubcommand::Url { url } => SourceView::Url { url: url@ },
            CheckerSubcommand::File { file } => SourceView::File { file },
        }
    }
}

/// One invocation: the source and the switches that apply to every source.
#[derive(Clone, Debug, PartialEq, Eq)]
pub struct CheckerCli {
    pub command: CheckerSubcommand,
    /// Leave out the comparisons against the names the registry already holds.
    pub skip_exists: bool,
    /// The unique name the installed manifest must carry.
    pub expected_unique_name: Option<String>,
    /// Write the document rendering to a file.
    pub output_md: bool,
    /// Print the structured record and nothing else.
    pub raw: bool,
}

impl CheckerCli {
    /// Whether the names in the registry are consulted.
    pub open spec fn spec_check_remote(&self) -> bool {
        !self.skip_exists
    }

    /// Whether the names in the registry are consulted: unless `skip_exists`.
    #[verifier::when_used_as_spec(spec_check_remote)]
    pub fn check_remote(&self) -> (r: bool)
        ensures
            r == !self.skip_exists,
    {
        !self.skip_exists
    }
}

} // verus!
