use neon::cli::update::{custom_manifest_url, repatch_summary, WidevineArgs, WidevineUpdateOutcome};
use neon::cli::patch::PatchReport;

#[test]
fn fetch_from_custom_invalid_url_errors() {
    let r = custom_manifest_url("not-a-url");
    assert!(r.is_err());
}

#[test]
fn widevine_args_default_no_rollback_no_source() {
    let a = WidevineArgs::default();
    assert!(!a.rollback);
    assert!(a.cdm_source.is_none());
}

#[test]
fn widevine_update_outcome_serializes_via_json_value() {
    let outcome = WidevineUpdateOutcome {
        current_version: "1.0".into(),
        downloaded: true,
        patch_reports: vec![],
    };
    assert_eq!(outcome.current_version, "1.0");
    assert!(outcome.downloaded);
    assert!(outcome.patch_reports.is_empty());
}

#[test]
fn custom_source_error_names_the_url_and_the_reason() {
    let e = custom_manifest_url("not-a-url").expect_err("relative");
    assert_eq!(e.text(), "invalid --cdm-source URL 'not-a-url': relative URL without a base");
}

#[test]
fn custom_source_accepts_absolute_urls() {
    let u = custom_manifest_url("https://example.com/widevine/feed").expect("valid");
    assert_eq!(u.as_str(), "https://example.com/widevine/feed");
    assert_eq!(u.host_str(), Some("example.com"));
}

fn report(browser: &str, success: bool, error: Option<&str>) -> PatchReport {
    PatchReport {
        browser: browser.into(),
        success,
        cdm_version: None,
        version_before: None,
        version_after: None,
        dry_run: false,
        error: error.map(String::from),
    }
}

#[test]
fn repatch_summary_lines() {
    let reports = vec![
        report("Helium", true, None),
        report("Thorium", false, Some("browser is running")),
        report("Quiet", false, None),
    ];
    assert_eq!(
        repatch_summary(&reports),
        vec!["Re-patched Helium: ok", "Re-patch Thorium FAILED: browser is running"]
    );
    assert!(repatch_summary(&vec![]).is_empty());
}

#[test]
fn custom_source_is_handed_back_in_normal_form() {
    let u = custom_manifest_url("HTTPS://Example.COM").expect("valid");
    assert_eq!(u.as_str(), "https://example.com/");
}

#[test]
fn outcomes_of_install_and_rollback() {
    let installed = WidevineUpdateOutcome::installed("4.10.2830.0".into(), vec![report("Helium", true, None)]);
    assert_eq!(installed.current_version, "4.10.2830.0");
    assert!(installed.downloaded);
    assert_eq!(installed.patch_reports, vec![report("Helium", true, None)]);
    let back = WidevineUpdateOutcome::rolled_back("4.10.2752.0".into());
    assert_eq!(back.current_version, "4.10.2752.0");
    assert!(!back.downloaded);
    assert!(back.patch_reports.is_empty());
}
