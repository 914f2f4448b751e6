//! The report of one run, and its two renderings: a structured record for
//! automation and a document for people.

use vstd::prelude::*;
use vstd::string::*;
use crate::kinds::{
    error_identifier, error_message, opt_error, warning_identifier, warning_message, CheckerError,
    CheckerWarning, ErrorView,
};
use crate::text::opt_text;

verus! {

/// The report of one run: the address the package can be installed from, the
/// warnings gathered before the run ended, and the error that ended it, if
/// one did. There is never more than one error; warnings may stand beside it.
#[derive(Clone, Debug, PartialEq, Eq)]
pub struct RawResult {
    pub url: Option<String>,
    pub warnings: Vec<CheckerWarning>,
    pub error: Option<CheckerError>,
}

/// The view of a `RawResult`.
pub struct ReportView {
    pub url: Option<Seq<char>>,
    pub warnings: Seq<CheckerWarning>,
    pub error: Option<ErrorView>,
}

impl View for RawResult {
    type V = ReportView;

    open spec fn view(&self) -> ReportView {
        ReportView {
            url: opt_text(self.url),
            warnings: self.warnings@,
            error: opt_error(self.error),
        }
    }
}

/// One finding in the structured record: the stable identifier of its kind
/// and its message.
#[derive(Clone, Debug, PartialEq, Eq)]
pub struct RecordEntry {
    pub identifier: String,
    pub message: String,
}

/// The structured record of a report.
#[derive(Clone, Debug, PartialEq, Eq)]
pub struct StructuredRecord {
    pub url: Option<String>,
    pub warnings: Vec<RecordEntry>,
    pub error: Option<RecordEntry>,
}

/// The view of a `StructuredRecord`: each finding as its identifier and its
/// message.
pub struct RecordView {
    pub url: Option<Seq<char>>,
    pub warnings: Seq<(Seq<char>, Seq<char>)>,
    pub error: Option<(Seq<char>, Seq<char>)>,
}

impl View for StructuredRecord {
    type V = RecordView;

    open spec fn view(&self) -> RecordView {
        RecordView {
            url: opt_text(self.url),
            warnings: self.warnings@.map_values(|e: RecordEntry| (e.identifier@, e.message@)),
            error: match self.error {
                Some(e) => Some((e.identifier@, e.message@)),
                None => None,
            },
        }
    }
}

/// The structured record that belongs to a report.
pub open spec fn record_of(r: ReportView) -> RecordView {
    RecordView {
        url: r.url,
        warnings: r.warnings.map_values(
            |w: CheckerWarning| (warning_identifier(w), warning_message(w)),
        ),
        error: match r.error {
            Some(e) => Some((error_identifier(e), error_message(e))),
            None => None,
        },
    }
}

/// The title and the introduction of the document.
pub open spec fn document_intro() -> Seq<char> {
    "# Mod Checker Report\n\nThis is an automated system to check your mod for common issues, please see the results below.\n\n"@
}

/// The heading of the section that lists the findings.
pub open spec fn issues_heading() -> Seq<char> {
    "## Issues\n\n"@
}

/// The callout for the error, or nothing where there is none.
pub open spec fn error_callout(error: Option<ErrorView>) -> Seq<char> {
    match error {
        Some(e) => "> [!CAUTION]\n> "@ + error_message(e) + "\n\n"@,
        None => Seq::<char>::empty(),
    }
}

/// The callouts for the first `n` warnings, in order.
pub open spec fn warning_callouts(warnings: Seq<CheckerWarning>, n: int) -> Seq<char>
    decreases n,
{
    if n <= 0 {
        Seq::<char>::empty()
    } else {
        warning_callouts(warnings, n - 1) + "> [!WARNING]\n> "@ + warning_message(warnings[n - 1])
            + "\n\n"@
    }
}

/// Whether a report has anything to list under the findings.
pub open spec fn has_issues(r: ReportView) -> bool {
    r.error is Some || r.warnings.len() > 0
}

/// The section that lists the findings: the heading, the error's callout,
/// then one callout for each warning. It is empty where there is no finding.
pub open spec fn issues_section(r: ReportView) -> Seq<char> {
    if has_issues(r) {
        issues_heading() + error_callout(r.error) + warning_callouts(
            r.warnings,
            r.warnings.len() as int,
        )
    } else {
        Seq::<char>::empty()
    }
}

/// The lines that hold the test-install link, or nothing where the package
/// has no address.
pub open spec fn install_link(url: Option<Seq<char>>) -> Seq<char> {
    match url {
        Some(u) => {
            "You can test installing your mod by pasting the link below into your URL bar, the mod manager should open and install it.\n\n```txt\nowmods://install-url/"@
                + u + "\n```\n\n"@
        },
        None => Seq::<char>::empty(),
    }
}

/// The section that states the verdict. On success: the success callout, the
/// test-install link where there is an address, and the note that a person
/// reviews next. On failure: the failure callout and where to find help.
pub open spec fn results_section(r: ReportView) -> Seq<char> {
    if r.error is None {
        "## Results\n\n> ✔ Success! This mod passed all checks!\n\n"@ + install_link(r.url)
            + "Now that all checks have passed, please wait until a database admin approves your mod.\n"@
    } else {
        "## Results\n\n> ❌ Failed, This mod doesn't seem to be valid, please fix the errors above and try again.\n\nIf you need help or believe this is a mistake, please [join the Discord](https://discord.gg/wusTQYbYTc).\n"@
    }
}

/// The whole document: the introduction, the findings, the verdict.
pub open spec fn document(r: ReportView) -> Seq<char> {
    document_intro() + issues_section(r) + results_section(r)
}

/// A document without findings holds no section for them: the verdict stands
/// directly behind the introduction. A document with an error or a warning
/// always holds the section, which opens with its heading.
pub proof fn lemma_issues_section_iff_findings(r: ReportView)
    ensures
        issues_heading().len() > 0,
        !has_issues(r) ==> issues_section(r).len() == 0 && document(r) == document_intro()
            + results_section(r),
        has_issues(r) ==> issues_section(r).len() >= issues_heading().len() && issues_section(
            r,
        ).subrange(0, issues_heading().len() as int) == issues_heading(),
{
    reveal_strlit("## Issues\n\n");
    if has_issues(r) {
        assert(issues_section(r).subrange(0, issues_heading().len() as int) =~= issues_heading());
    } else {
        assert(document(r) =~= document_intro() + results_section(r));
    }
}

impl RawResult {
    /// The report of a run that passed every check.
    pub fn success(url: Option<String>, warnings: Vec<CheckerWarning>) -> (r: RawResult)
        ensures
            r@ == (ReportView { url: opt_text(url), warnings: warnings@, error: None }),
    {
        RawResult { url, warnings, error: None }
    }

    /// The report of a run that `error` ended: it carries the warnings
    /// gathered so far and no address.
    pub fn failure(warnings: Vec<CheckerWarning>, error: CheckerError) -> (r: RawResult)
        ensures
            r@ == (ReportView { url: None, warnings: warnings@, error: Some(error@) }),
    {
        RawResult { url: None, warnings, error: Some(error) }
    }

    /// Whether the run failed. Warnings do not make a run fail.
    pub fn is_failure(&self) -> (r: bool)
        ensures
            r == (self@.error is Some),
    {
        self.error.is_some()
    }

    /// The structured record: the address, each warning and the error as
    /// identifier and message.
    pub fn record(&self) -> (r: StructuredRecord)
        ensures
            r@ == record_of(self@),
    {
        let url = match &self.url {
            Some(u) => Some(u.clone()),
            None => None,
        };
        let error = match &self.error {
            Some(e) => Some(RecordEntry { identifier: e.identifier(), message: e.message() }),
            None => None,
        };
        let mut warnings: Vec<RecordEntry> = Vec::new();
        let n: usize = self.warnings.len();
        let mut i: usize = 0;
        while i < n
            invariant
                n == self.warnings@.len(),
                i <= n,
                warnings@.len() == i,
                forall|k: int|
                    0 <= k < i ==> (#[trigger] warnings@[k]).identifier@ == warning_identifier(
                        self.warnings@[k],
                    ) && warnings@[k].message@ == warning_message(self.warnings@[k]),
            decreases n - i,
        {
            let w = self.warnings[i];
            warnings.push(RecordEntry { identifier: w.identifier(), message: w.message() });
            i += 1;
        }
        let r = StructuredRecord { url, warnings, error };
        assert(r@.warnings =~= record_of(self@).warnings);
        r
    }

    /// The section of the document that lists the findings.
    pub fn issues(&self) -> (r: String)
        ensures
            r@ == issues_section(self@),
    {
        let n: usize = self.warnings.len();
        if self.error.is_none() && n == 0 {
            return String::new();
        }
        let mut out = String::from_str("## Issues\n\n");
        if let Some(e) = &self.error {
            let m = e.message();
            out.append("> [!CAUTION]\n> ");
            out.append(m.as_str());
            out.append("\n\n");
            assert(out@ =~= issues_heading() + error_callout(self@.error));
        } else {
            assert(out@ =~= issues_heading() + error_callout(self@.error));
        }
        let mut i: usize = 0;
        while i < n
            invariant
                n == self.warnings@.len(),
                i <= n,
                out@ == issues_heading() + error_callout(self@.error) + warning_callouts(
                    self.warnings@,
                    i as int,
                ),
            decreases n - i,
        {
            let m = self.warnings[i].message();
            out.append("> [!WARNING]\n> ");
            out.append(m.as_str());
            out.append("\n\n");
            i += 1;
            assert(out@ =~= issues_heading() + error_callout(self@.error) + warning_callouts(
                self.warnings@,
                i as int,
            ));
        }
        out
    }

    /// The section of the document that states the verdict.
    pub fn results(&self) -> (r: String)
        ensures
            r@ == results_section(self@),
    {
        if self.error.is_none() {
            let mut out = String::from_str(
                "## Results\n\n> ✔ Success! This mod passed all checks!\n\n",
            );
            if let Some(u) = &self.url {
                let mut link = String::from_str(
                    "You can test installing your mod by pasting the link below into your URL bar, the mod manager should open and install it.\n\n```txt\nowmods://install-url/",
                );
                link.append(u.as_str());
                link.append("\n```\n\n");
                out.append(link.as_str());
            } else {
                assert(out@ =~= out@ + install_link(self@.url));
            }
            out.append(
                "Now that all checks have passed, please wait until a database admin approves your mod.\n",
            );
            out
        } else {
            String::from_str(
                "## Results\n\n> ❌ Failed, This mod doesn't seem to be valid, please fix the errors above and try again.\n\nIf you need help or believe this is a mistake, please [join the Discord](https://discord.gg/wusTQYbYTc).\n",
            )
        }
    }

    /// The document rendering of the report.
    pub fn markdown(&self) -> (r: String)
        ensures
            r@ == document(self@),
    {
        let issues = self.issues();
        let results = self.results();
        let mut out = String::from_str(
            "# Mod Checker Report\n\nThis is an automated system to check your mod for common issues, please see the results below.\n\n",
        );
        out.append(issues.as_str());
        out.append(results.as_str());
        out
    }
}

} // verus!
