use fm_xml_explode::script_steps::comment::sanitize;

#[test]
fn comment_test_sanitize() {
    let xml_input = "
        <Step id=\"89\" name=\"# (Kommentar)\" enable=\"True\">
            <ParameterValues membercount=\"1\">
                <ParameterValues membercount=\"1\">
                    <Parameter type=\"Comment\">
                        <Comment value=\"Lorem Ipsum\"></Comment>
                    </Parameter>
                </ParameterValues>
            </ParameterValues>
        </Step>
    ";

    let expected_output = Some("# Lorem Ipsum".to_string());
    assert_eq!(sanitize(xml_input.trim()), expected_output);
}

#[test]
fn test_sanitize_empty_comment() {
    let xml_input = "
        <Step id=\"89\" name=\"# (Kommentar)\" enable=\"True\">
            <ParameterValues membercount=\"1\">
                <ParameterValues membercount=\"1\">
                    <Parameter type=\"Comment\">
                        <Comment></Comment>
                    </Parameter>
                </ParameterValues>
            </ParameterValues>
        </Step>
    ";

    let expected_output = Some("".to_string());
    assert_eq!(sanitize(xml_input.trim()), expected_output);
}
