use neon::bridge::{stream, HardwareCapabilities};
use neon::error::ErrorCategory;

#[test]
fn stream_returns_stub_error() {
    let err = stream("https://example.com").expect_err("must error");
    assert_eq!(err.category, ErrorCategory::Other);
    assert!(err.text().contains("V3"));
    assert!(err.text().contains("ROADMAP"));
}

#[test]
fn hardware_capabilities_detect_constructs_stub() {
    let _caps = HardwareCapabilities::detect();
}

#[test]
fn error_constructors_set_category_and_text() {
    let e = neon::error::Error::unsupported_platform("no tray host".to_string());
    assert_eq!(e.category, ErrorCategory::UnsupportedPlatform);
    assert_eq!(e.text(), "no tray host");
    let o = neon::error::Error::other("boom".to_string());
    assert_eq!(o.category, ErrorCategory::Other);
    assert_eq!(o.text(), "boom");
}
