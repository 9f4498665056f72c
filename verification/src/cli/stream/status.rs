//! `neon stream status`: the status record of the bridge VM and its text
//! rendering.

use vstd::prelude::*;

use crate::bridge::license::LicensePosture;
use crate::cli::OutputOptions;
use crate::error::Error;
use crate::text::{decimal, push_decimal, push_signed_decimal, signed_decimal};

verus! {

/// Env var that skips the Sunshine reachability probe.
pub const STATUS_NO_NETWORK_ENV: &'static str = "NEON_TEST_STATUS_NO_NETWORK";

/// Args for `neon stream status`.
#[derive(Debug, Clone)]
pub struct Args {
    /// `--json`: emit JSON.
    pub json: bool,
    /// Output flags.
    pub output: OutputOptions,
}

impl Default for Args {
    fn default() -> (a: Self)
        ensures
            !a.json,
            a.output == (OutputOptions { json: false, quiet: false, no_color: false }),
    {
        Args { json: false, output: OutputOptions::default() }
    }
}

impl Args {
    /// JSON is wanted when either `--json` flag is set.
    pub fn wants_json(&self) -> (b: bool)
        ensures
            b == (self.json || self.output.json),
    {
        self.json || self.output.json
    }
}

/// Status snapshot of the bridge.
#[derive(Debug, Clone, PartialEq, Eq)]
pub struct StreamStatus {
    /// VM name.
    pub vm_name: String,
    /// `true` when the hypervisor knows the domain.
    pub vm_defined: bool,
    /// `true` when the domain is running.
    pub vm_running: bool,
    /// `true` when the post-install snapshot exists.
    pub snapshot_present: bool,
    /// Licence mode label, when a posture is recorded.
    pub license_mode: Option<String>,
    /// Days until the trial expires (negative: days past expiry).
    pub license_days_remaining: Option<i64>,
    /// Whether the guest's Sunshine port answered; `None` when not probed.
    pub sunshine_reachable: Option<bool>,
}

/// Label of a licence posture.
pub open spec fn mode_label(p: LicensePosture) -> Seq<char> {
    match p {
        LicensePosture::Eval { .. } => "trial"@,
        LicensePosture::Key(_) => "key"@,
        LicensePosture::KeyFile(_) => "key_file"@,
    }
}

/// Label of a licence posture: "trial", "key" or "key_file".
pub fn license_mode_label(p: &LicensePosture) -> (label: String)
    ensures
        label@ == mode_label(*p),
{
    match p {
        LicensePosture::Eval { .. } => "trial".to_owned(),
        LicensePosture::Key(_) => "key".to_owned(),
        LicensePosture::KeyFile(_) => "key_file".to_owned(),
    }
}

/// What the hypervisor reported about the bridge domain.
#[derive(Debug, Clone)]
pub enum DomainProbe {
    /// Connecting to the hypervisor, or looking the domain up, failed.
    Failed(Error),
    /// The domain exists.
    Found {
        /// It is running (a failed state query counts as not running).
        running: bool,
        /// The post-install snapshot exists.
        snapshot_present: bool,
    },
}

/// Assembles the status record from what was observed: the recorded
/// licence posture with its days until expiry, the hypervisor's answer and
/// the Sunshine probe (`None` when skipped). A failed hypervisor
/// connection or domain lookup is returned as the error.
pub fn build_status(
    vm_name: &str,
    posture: Option<&LicensePosture>,
    days_until_expiry: Option<i64>,
    domain: DomainProbe,
    sunshine_reachable: Option<bool>,
) -> (r: Result<StreamStatus, Error>)
    ensures
        r is Err <==> domain is Failed,
        r matches Err(e) ==> domain == DomainProbe::Failed(e),
        r matches Ok(s) ==> {
            &&& s.vm_name@ == vm_name@
            &&& s.license_mode.deep_view() == (match posture {
                Some(p) => Some(mode_label(*p)),
                None => None,
            })
            &&& s.license_days_remaining == (if posture is Some {
                days_until_expiry
            } else {
                None
            })
            &&& s.vm_defined
            &&& domain matches DomainProbe::Found { running, snapshot_present }
            &&& s.vm_running == running
            &&& s.snapshot_present == snapshot_present
            &&& s.sunshine_reachable == sunshine_reachable
        },
{
    let (vm_running, snapshot_present) = match domain {
        DomainProbe::Found { running, snapshot_present } => (running, snapshot_present),
        DomainProbe::Failed(e) => {
            return Err(e);
        },
    };
    let (license_mode, license_days_remaining) = match posture {
        Some(p) => (Some(license_mode_label(p)), days_until_expiry),
        None => (None, None),
    };
    Ok(
        StreamStatus {
            vm_name: vm_name.to_owned(),
            vm_defined: true,
            vm_running,
            snapshot_present,
            license_mode,
            license_days_remaining,
            sunshine_reachable,
        },
    )
}

/// "yes" or "no".
pub open spec fn yes_no(b: bool) -> Seq<char> {
    if b {
        "yes"@
    } else {
        "no"@
    }
}

/// The licence lines of the status block.
pub open spec fn license_lines(s: StreamStatus) -> Seq<char> {
    match s.license_mode {
        Some(mode) => "  License mode:      "@ + mode@ + "\n"@ + match s.license_days_remaining {
            Some(days) => if days >= 0 {
                "  License remaining: "@ + decimal(days as nat) + " days\n"@
            } else {
                "  License expired:   "@ + signed_decimal(-days) + " days ago\n"@
            },
            None => Seq::empty(),
        },
        None => "  License mode:      (not configured)\n"@,
    }
}

/// The Sunshine line of the status block.
pub open spec fn sunshine_line(s: StreamStatus) -> Seq<char> {
    match s.sunshine_reachable {
        Some(true) => "  Sunshine:          reachable\n"@,
        Some(false) => "  Sunshine:          unreachable\n"@,
        None => "  Sunshine:          (probe skipped)\n"@,
    }
}

/// The VM lines of the status block.
pub open spec fn vm_lines(s: StreamStatus) -> Seq<char> {
    "Neon stream status\n"@ + "  VM name:           "@ + s.vm_name@ + "\n"@
        + "  Defined:           "@ + yes_no(s.vm_defined) + "\n"@ + "  Running:           "@
        + yes_no(s.vm_running) + "\n"@ + "  Fresh snapshot:    "@ + yes_no(s.snapshot_present)
        + "\n"@
}

/// The friendly multi-line status block.
pub open spec fn status_text(s: StreamStatus) -> Seq<char> {
    vm_lines(s) + license_lines(s) + sunshine_line(s)
}

fn push_yes_no(out: &mut String, b: bool)
    ensures
        final(out)@ == old(out)@ + yes_no(b),
{
    if b {
        out.append("yes");
    } else {
        out.append("no");
    }
}

fn push_license_lines(out: &mut String, s: &StreamStatus)
    requires
        s.license_mode is Some ==> s.license_days_remaining != Some(i64::MIN),
    ensures
        final(out)@ == old(out)@ + license_lines(*s),
{
    match &s.license_mode {
        Some(mode) => {
            out.append("  License mode:      ");
            out.append(mode.as_str());
            out.append("\n");
            if let Some(days) = s.license_days_remaining {
                if days >= 0 {
                    out.append("  License remaining: ");
                    push_decimal(out, days as u64);
                    out.append(" days\n");
                } else {
                    out.append("  License expired:   ");
                    push_signed_decimal(out, -days);
                    out.append(" days ago\n");
                }
            }
        },
        None => {
            out.append("  License mode:      (not configured)\n");
        },
    }
}

/// Renders the status as a friendly multi-line block, one `\n`-terminated
/// line per fact.
pub fn render_text(s: &StreamStatus) -> (text: String)
    requires
        s.license_mode is Some ==> s.license_days_remaining != Some(i64::MIN),
    ensures
        text@ == status_text(*s),
{
    let mut out = "Neon stream status\n".to_owned();
    out.append("  VM name:           ");
    out.append(s.vm_name.as_str());
    out.append("\n");
    out.append("  Defined:           ");
    push_yes_no(&mut out, s.vm_defined);
    out.append("\n");
    out.append("  Running:           ");
    push_yes_no(&mut out, s.vm_running);
    out.append("\n");
    out.append("  Fresh snapshot:    ");
    push_yes_no(&mut out, s.snapshot_present);
    out.append("\n");
    let ghost vm = out@;
    assert(vm =~= vm_lines(*s));
    push_license_lines(&mut out, s);
    match s.sunshine_reachable {
        Some(true) => out.append("  Sunshine:          reachable\n"),
        Some(false) => out.append("  Sunshine:          unreachable\n"),
        None => out.append("  Sunshine:          (probe skipped)\n"),
    }
    out
}

/// `t` ends with `suffix`.
pub open spec fn ends_with(t: Seq<char>, suffix: Seq<char>) -> bool {
    suffix.len() <= t.len() && t.subrange(t.len() - suffix.len(), t.len() as int) == suffix
}

/// The status block ends with what the Sunshine probe found: "reachable"
/// when it answered, "unreachable" when it failed, "(probe skipped)" when
/// none ran. A probe that answered and one that failed, with everything else
/// the same, give different text.
pub proof fn lemma_sunshine_line_reports_the_probe(s: StreamStatus)
    ensures
        s.sunshine_reachable == Some(true) ==> ends_with(
            status_text(s),
            "  Sunshine:          reachable\n"@,
        ),
        s.sunshine_reachable == Some(false) ==> ends_with(
            status_text(s),
            "  Sunshine:          unreachable\n"@,
        ),
        s.sunshine_reachable is None ==> ends_with(
            status_text(s),
            "  Sunshine:          (probe skipped)\n"@,
        ),
        status_text(StreamStatus { sunshine_reachable: Some(true), ..s }) != status_text(
            StreamStatus { sunshine_reachable: Some(false), ..s },
        ),
{
    reveal_strlit("  Sunshine:          reachable\n");
    reveal_strlit("  Sunshine:          unreachable\n");
    let t = status_text(s);
    let prefix = vm_lines(s) + license_lines(s);
    assert(t == prefix + sunshine_line(s));
    assert(t.subrange(prefix.len() as int, t.len() as int) =~= sunshine_line(s));
    let yes = StreamStatus { sunshine_reachable: Some(true), ..s };
    let no = StreamStatus { sunshine_reachable: Some(false), ..s };
    assert(vm_lines(yes) + license_lines(yes) == prefix);
    assert(vm_lines(no) + license_lines(no) == prefix);
    assert(status_text(yes).len() != status_text(no).len());
}

} // verus!
