use std::sync::Arc;
use triangle::instance::instance_or_diagnostic;

#[test]
fn instance_is_handed_on_unchanged() {
    assert_eq!(instance_or_diagnostic(Ok::<u32, String>(7)), Ok(7));
    assert_eq!(
        instance_or_diagnostic(Ok::<String, String>("handle".to_string())),
        Ok("handle".to_string())
    );
}

#[test]
fn instance_handed_on_is_the_same_one() {
    let given = Arc::new(41u64);
    let outcome = instance_or_diagnostic(Ok::<Arc<u64>, String>(given.clone()));
    let got = outcome.unwrap();
    assert!(Arc::ptr_eq(&given, &got));
}

#[test]
fn refusal_becomes_the_diagnostic() {
    let outcome = instance_or_diagnostic(Err::<u32, String>("LayerNotPresent".to_string()));
    assert_eq!(
        outcome,
        Err("Could not create an Instance.: LayerNotPresent".to_string())
    );
}

#[test]
fn refusal_with_structured_error_text() {
    let outcome = instance_or_diagnostic(Err::<(), String>(
        "ExtensionRestrictionNotMet(ExtensionRestrictionError { extension: \"khr_surface\" })"
            .to_string(),
    ));
    assert_eq!(
        outcome,
        Err("Could not create an Instance.: ExtensionRestrictionNotMet(ExtensionRestrictionError { extension: \"khr_surface\" })".to_string())
    );
}

#[test]
fn refusal_with_empty_error_keeps_the_fixed_text() {
    let outcome = instance_or_diagnostic(Err::<u32, String>(String::new()));
    assert_eq!(outcome, Err("Could not create an Instance.: ".to_string()));
}

#[test]
fn refusal_keeps_non_ascii_error_text() {
    let outcome = instance_or_diagnostic(Err::<u32, String>("失敗".to_string()));
    assert_eq!(outcome, Err("Could not create an Instance.: 失敗".to_string()));
}
