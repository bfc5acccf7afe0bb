use fm_xml_explode::script_steps::perform_find::sanitize;

#[test]
fn perform_find_test() {
    let xml_input = "
    <Step id=\"28\" name=\"Ergebnismenge suchen\" enable=\"True\">
			<Options>0</Options>
		</Step>";

    let expected_output = Some("Ergebnismenge suchen".to_string());
    assert_eq!(sanitize(xml_input.trim()), expected_output);
}

#[test]
fn test_with_criteria() {
    let xml_input = "
    <Step id=\"28\" name=\"Ergebnismenge suchen\" enable=\"True\">
        <Options>33587200</Options>
        <ParameterValues membercount=\"1\">
            <Parameter type=\"FindRequest\">
                <FindRequestSet membercount=\"2\">
                    <FindRequest membercount=\"2\" action=\"find\">
                        <find criteria=\"ScriptStep\">
                            <FieldReference id=\"15\" name=\"Selector\">
                                <TableOccurrenceReference id=\"1065113\" name=\"_Syntax\"></TableOccurrenceReference>
                            </FieldReference>
                        </find>
                        <find criteria=\"1\">
                            <FieldReference id=\"21\" name=\"_kIsWildcard\">
                                <TableOccurrenceReference id=\"1065113\" name=\"_Syntax\"></TableOccurrenceReference>
                            </FieldReference>
                        </find>
                    </FindRequest>
                    <FindRequest membercount=\"1\" action=\"omit\">
                        <find criteria=\"1&#13;2\">
                            <FieldReference id=\"12\" name=\"__ID\">
                                <TableOccurrenceReference id=\"1065113\" name=\"_Syntax\"></TableOccurrenceReference>
                            </FieldReference>
                        </find>
                    </FindRequest>
                </FindRequestSet>
            </Parameter>
        </ParameterValues>
    </Step>
    ";

    let expected_output = Some("Ergebnismenge suchen [ ⚠️ RESTORE ⚠️ ]".to_string());
    assert_eq!(sanitize(xml_input.trim()), expected_output);
}
