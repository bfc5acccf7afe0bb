use fm_xml_explode::script_steps::primitive_with_boolean::sanitize;

#[test]
fn test_sanitize_enabled() {
    let xml_input = "
		<Step id=\"86\" name=\"Fehleraufzeichnung setzen\" enable=\"True\">
			<Options>196608</Options>
			<ParameterValues membercount=\"1\">
				<Parameter type=\"Boolean\">
					<Boolean id=\"131072\" value=\"True\"></Boolean>
				</Parameter>
			</ParameterValues>
		</Step>
    ";

    let expected_output = Some("Fehleraufzeichnung setzen [ ON ]".to_string());
    assert_eq!(sanitize(xml_input.trim()), expected_output);
}

#[test]
fn test_sanitize_disabled() {
    let xml_input = "
		<Step id=\"86\" name=\"Fehleraufzeichnung setzen\" enable=\"True\">
			<Options>196608</Options>
			<ParameterValues membercount=\"1\">
				<Parameter type=\"Boolean\">
					<Boolean id=\"131072\" value=\"False\"></Boolean>
				</Parameter>
			</ParameterValues>
		</Step>
    ";

    let expected_output = Some("Fehleraufzeichnung setzen [ OFF ]".to_string());
    assert_eq!(sanitize(xml_input.trim()), expected_output);
}

#[test]
fn test_sanitize_enter_find_mode() {
    let xml_input = "
    <Step id=\"22\" name=\"Suchenmodus aktivieren\" enable=\"True\">
			<SourceUUID>3C5EBF9C-BAE0-460F-92AF-3FB73649951B</SourceUUID>
			<ParameterValues membercount=\"1\">
				<Parameter type=\"Boolean\">
					<Boolean type=\"Pause\" id=\"16777216\" value=\"False\"></Boolean>
				</Parameter>
			</ParameterValues>
		</Step>
    ";

    let expected_output = Some("Suchenmodus aktivieren [ Pause: OFF ]".to_string());
    assert_eq!(sanitize(xml_input.trim()), expected_output);
}
