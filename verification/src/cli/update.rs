//! `neon update widevine`: arguments, outcome record, the custom manifest
//! source and the re-patch summary.

use vstd::prelude::*;

use crate::cli::patch::PatchReport;
use crate::cli::OutputOptions;
use crate::error::{Error, ErrorCategory};

verus! {

/// A parsed URL.
#[verifier::external_type_specification]
#[verifier::external_body]
pub struct ExUrl(url::Url);

/// Args for `neon update widevine`.
#[derive(Debug, Clone)]
pub struct WidevineArgs {
    /// `--rollback`: revert to the previous cached version.
    pub rollback: bool,
    /// `--cdm-source <url>`: override the default manifest chain.
    pub cdm_source: Option<String>,
    /// Output flags.
    pub output: OutputOptions,
}

impl Default for WidevineArgs {
    fn default() -> (a: Self)
        ensures
            !a.rollback,
            a.cdm_source is None,
            a.output == (OutputOptions { json: false, quiet: false, no_color: false }),
    {
        WidevineArgs { rollback: false, cdm_source: None, output: OutputOptions::default() }
    }
}

/// Outcome record for `neon update widevine`.
#[derive(Debug, Clone, PartialEq, Eq)]
pub struct WidevineUpdateOutcome {
    /// CDM version now active.
    pub current_version: String,
    /// `true` when a download happened (vs. a rollback).
    pub downloaded: bool,
    /// Reports for each browser re-patched after the update.
    pub patch_reports: Vec<PatchReport>,
}

impl WidevineUpdateOutcome {
    /// The outcome of an install: `version` is now active, it was
    /// downloaded, and `reports` are the re-patches that followed.
    pub fn installed(version: String, reports: Vec<PatchReport>) -> (o: Self)
        ensures
            o.current_version == version,
            o.downloaded,
            o.patch_reports == reports,
    {
        WidevineUpdateOutcome { current_version: version, downloaded: true, patch_reports: reports }
    }

    /// The outcome of a rollback to `version`: nothing downloaded, nothing
    /// re-patched.
    pub fn rolled_back(version: String) -> (o: Self)
        ensures
            o.current_version == version,
            !o.downloaded,
            o.patch_reports@.len() == 0,
    {
        WidevineUpdateOutcome { current_version: version, downloaded: false, patch_reports: Vec::new() }
    }
}

/// What `url::Url::parse` makes of `input`: `Ok` with the URL's serialised
/// text when it accepts `input`, `Err` with the Display text of its
/// `ParseError` when it rejects it. Depends on `input` alone.
pub uninterp spec fn url_parse_result(input: Seq<char>) -> Result<Seq<char>, Seq<char>>;

/// The serialised text of a URL, as `url::Url::as_str` returns it; what
/// [`parse_url`] states of the `Url` it returns is said through it.
pub uninterp spec fn url_serialization(u: url::Url) -> Seq<char>;

/// Calls `url::Url::parse`. Trusted: the call either accepts the text and
/// returns a `Url` whose serialisation (`Url::as_str`) is the text the
/// parser makes of `input`, or rejects it with the Display text of its
/// `ParseError`; which of the two happens, and with which text, depends on
/// `input` alone.
#[verifier::external_body]
fn parse_url(input: &str) -> (r: Result<url::Url, String>)
    ensures
        match r {
            Ok(u) => url_parse_result(input@) == Ok::<Seq<char>, Seq<char>>(url_serialization(u)),
            Err(e) => url_parse_result(input@) == Err::<Seq<char>, Seq<char>>(e@),
        },
{
    match url::Url::parse(input) {
        Ok(u) => Ok(u),
        Err(e) => Err(e.to_string()),
    }
}

/// The message for a `--cdm-source` the URL parser rejects.
pub open spec fn invalid_source_message(source: Seq<char>, reason: Seq<char>) -> Seq<char> {
    "invalid --cdm-source URL '"@ + source + "': "@ + reason
}

/// Parses the `--cdm-source` override into the manifest URL to fetch.
/// Succeeds with the URL the parser makes of `source`, and fails exactly when
/// the parser rejects it, naming `source` and the parser's reason.
pub fn custom_manifest_url(source: &str) -> (r: Result<url::Url, Error>)
    ensures
        r is Ok <==> url_parse_result(source@) is Ok,
        r matches Ok(u) ==> url_serialization(u) == url_parse_result(source@)->Ok_0,
        r matches Err(e) ==> e.category == ErrorCategory::Other && e.message@
            == invalid_source_message(source@, url_parse_result(source@)->Err_0),
{
    match parse_url(source) {
        Ok(u) => Ok(u),
        Err(reason) => {
            let mut m = "invalid --cdm-source URL '".to_owned();
            m.append(source);
            m.append("': ");
            m.append(reason.as_str());
            Err(Error::other(m))
        },
    }
}

/// The summary line for one re-patched browser: "ok" on success, the error
/// on failure, nothing for a failure without a message.
pub open spec fn repatch_line(r: PatchReport) -> Seq<Seq<char>> {
    if r.success {
        seq!["Re-patched "@ + r.browser@ + ": ok"@]
    } else if r.error is Some {
        seq!["Re-patch "@ + r.browser@ + " FAILED: "@ + r.error->0@]
    } else {
        Seq::empty()
    }
}

/// The summary lines for a run of re-patches, in order.
pub open spec fn repatch_text(reports: Seq<PatchReport>) -> Seq<Seq<char>>
    decreases reports.len(),
{
    if reports.len() == 0 {
        Seq::empty()
    } else {
        repatch_text(reports.drop_last()) + repatch_line(reports.last())
    }
}

/// The lines printed after re-patching every browser at the new CDM.
pub fn repatch_summary(reports: &Vec<PatchReport>) -> (lines: Vec<String>)
    ensures
        lines.deep_view() == repatch_text(reports@),
{
    let mut lines: Vec<String> = Vec::new();
    let mut i: usize = 0;
    while i < reports.len()
        invariant
            i <= reports.len(),
            lines.deep_view() == repatch_text(reports@.take(i as int)),
        decreases reports.len() - i,
    {
        let r = &reports[i];
        let ghost before = lines.deep_view();
        if r.success {
            let mut m = "Re-patched ".to_owned();
            m.append(r.browser.as_str());
            m.append(": ok");
            lines.push(m);
        } else if let Some(e) = &r.error {
            let mut m = "Re-patch ".to_owned();
            m.append(r.browser.as_str());
            m.append(" FAILED: ");
            m.append(e.as_str());
            lines.push(m);
        }
        assert(reports@.take(i + 1).drop_last() =~= reports@.take(i as int));
        assert(lines.deep_view() =~= before + repatch_line(reports@[i as int]));
        i += 1;
    }
    assert(reports@.take(reports.len() as int) =~= reports@);
    lines
}

} // verus!
