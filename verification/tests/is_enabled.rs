use fm_xml_explode::script_steps::is_enabled::{sanitize, sanitize_checked};

#[test]
fn enabled_step() {
    assert!(sanitize(r#"<Step id="1" name="X" enable="True"></Step>"#));
}

#[test]
fn disabled_step() {
    assert!(!sanitize(r#"<Step id="1" name="X" enable="False"></Step>"#));
}

#[test]
fn no_step_counts_as_enabled() {
    assert!(sanitize(r#"<Other></Other>"#));
}

#[test]
fn step_without_enable_is_refused() {
    assert_eq!(sanitize_checked(r#"<Step id="1" name="X"></Step>"#), None);
}
