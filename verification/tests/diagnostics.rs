use triangle::diagnostics::{describe, MessageKind, Severity};

fn severity(error: bool, warning: bool, information: bool, verbose: bool) -> Severity {
    Severity { error, warning, information, verbose }
}

fn kind(general: bool, validation: bool, performance: bool) -> MessageKind {
    MessageKind { general, validation, performance }
}

#[test]
fn severity_labels_one_flag_each() {
    assert_eq!(severity(true, false, false, false).label_text(), "ERROR!");
    assert_eq!(severity(false, true, false, false).label_text(), "warning");
    assert_eq!(severity(false, false, true, false).label_text(), "information");
    assert_eq!(severity(false, false, false, true).label_text(), "verbose");
}

#[test]
fn severity_label_takes_most_serious_flag() {
    assert_eq!(severity(true, true, true, true).label_text(), "ERROR!");
    assert_eq!(severity(false, true, true, true).label_text(), "warning");
    assert_eq!(severity(false, false, true, true).label_text(), "information");
    assert_eq!(severity(true, false, false, true).label_text(), "ERROR!");
}

#[test]
fn severity_is_set_needs_a_flag() {
    assert!(!severity(false, false, false, false).is_set());
    assert!(severity(false, false, false, true).is_set());
    assert!(severity(false, false, true, false).is_set());
    assert!(severity(false, true, false, false).is_set());
    assert!(severity(true, false, false, false).is_set());
}

#[test]
fn kind_labels_one_flag_each() {
    assert_eq!(kind(true, false, false).label_text(), "GENERAL");
    assert_eq!(kind(false, true, false).label_text(), "VALIDATION");
    assert_eq!(kind(false, false, true).label_text(), "PERFORMANCE");
}

#[test]
fn kind_label_takes_first_flag() {
    assert_eq!(kind(true, true, true).label_text(), "GENERAL");
    assert_eq!(kind(false, true, true).label_text(), "VALIDATION");
    assert_eq!(kind(true, false, true).label_text(), "GENERAL");
}

#[test]
fn kind_is_set_needs_a_flag() {
    assert!(!kind(false, false, false).is_set());
    assert!(kind(true, false, false).is_set());
    assert!(kind(false, true, false).is_set());
    assert!(kind(false, false, true).is_set());
}

#[test]
fn describe_with_prefix() {
    let line = describe(
        Some("Validation"),
        &kind(false, true, false),
        &severity(true, false, false, false),
        "vkCreateDevice: bad queue count",
    );
    assert_eq!(line, "Validation: [VALIDATION] ERROR! - vkCreateDevice: bad queue count");
}

#[test]
fn describe_without_prefix_says_unknown() {
    let line = describe(
        None,
        &kind(true, false, false),
        &severity(false, false, false, true),
        "loader ready",
    );
    assert_eq!(line, "unknown: [GENERAL] verbose - loader ready");
}

#[test]
fn describe_keeps_empty_parts() {
    let line = describe(
        Some(""),
        &kind(false, false, true),
        &severity(false, true, false, false),
        "",
    );
    assert_eq!(line, ": [PERFORMANCE] warning - ");
}

#[test]
fn describe_keeps_non_ascii_text() {
    let line = describe(
        Some("レイヤ"),
        &kind(true, true, true),
        &severity(false, false, true, true),
        "三角形 ok",
    );
    assert_eq!(line, "レイヤ: [GENERAL] information - 三角形 ok");
}
