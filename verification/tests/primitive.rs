use fm_xml_explode::script_steps::primitive::sanitize;

#[test]
fn primitive_test_sanitize() {
    let xml_input = "<Step id=\"79\" name=\"Fenster fixieren\" enable=\"True\">";

    let expected_output = Some("Fenster fixieren".to_string());
    assert_eq!(sanitize(xml_input.trim()), expected_output);
}
