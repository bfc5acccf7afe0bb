use fm_xml_explode::script_steps::replace_field_contents::sanitize;

#[test]
fn test_broken_reference() {
    let xml_input = "
    <Step id=\"91\" name=\"Ersetze alle Feldwerte\" enable=\"True\">
        <Options>1</Options>
        <ParameterValues membercount=\"3\">
            <Parameter type=\"Boolean\">
                <Boolean type=\"Mit Dialog\" id=\"128\" value=\"True\"></Boolean>
            </Parameter>
            <Parameter type=\"FieldReference\">
                <FieldReference id=\"0\" name=\"\">
                    <repetition value=\"1\"></repetition>
                </FieldReference>
            </Parameter>
            <Parameter type=\"replace\">
                <List name=\"Aktueller Inhalt\" value=\"0\"></List>
            </Parameter>
        </ParameterValues>
    </Step>";

    let expected_output = Some("Ersetze alle Feldwerte [ Mit Dialog: ON ; 🚨🚨🚨 BROKEN REFERENCE 🚨🚨🚨 ; Aktueller Inhalt ]".to_string());
    assert_eq!(sanitize(xml_input.trim()), expected_output);
}

#[test]
fn test_no_reference_with_calculation() {
    let xml_input = "
    <Step id=\"91\" name=\"Ersetze alle Feldwerte\" enable=\"True\">
        <Options>16384</Options>
        <ParameterValues membercount=\"2\">
            <Parameter type=\"Boolean\">
                <Boolean type=\"Mit Dialog\" id=\"128\" value=\"True\"></Boolean>
            </Parameter>
            <Parameter type=\"replace\">
                <List name=\"Durch Berechnung ersetzen: \" value=\"3\">
                    <Calculation datatype=\"1\" position=\"0\">
                        <Calculation>
                            <Text><![CDATA[123456]]></Text>
                            <ChunkList hash=\"BA8D9958B4673D27E78D4DB3506BD4CB\">
                                <Chunk type=\"NoRef\">123456</Chunk>
                            </ChunkList>
                        </Calculation>
                    </Calculation>
                </List>
            </Parameter>
        </ParameterValues>
    </Step>";

    let expected_output = Some(
        "Ersetze alle Feldwerte [ Mit Dialog: ON ; Durch Berechnung ersetzen: 123456 ]"
            .to_string(),
    );
    assert_eq!(sanitize(xml_input.trim()), expected_output);
}

#[test]
fn test_with_reference() {
    let xml_input = "
    <Step id=\"91\" name=\"Ersetze alle Feldwerte\" enable=\"True\">
        <Options>5</Options>
        <ParameterValues membercount=\"3\">
            <Parameter type=\"Boolean\">
                <Boolean type=\"Mit Dialog\" id=\"128\" value=\"True\"></Boolean>
            </Parameter>
            <Parameter type=\"FieldReference\">
                <FieldReference id=\"6\" name=\"On\">
                    <repetition value=\"1\"></repetition>
                    <TableOccurrenceReference id=\"1065113\" name=\"_Syntax\"></TableOccurrenceReference>
                </FieldReference>
            </Parameter>
            <Parameter type=\"replace\">
                <List name=\"Aktueller Inhalt\" value=\"1\"></List>
            </Parameter>
        </ParameterValues>
    </Step>";

    let expected_output = Some(
        "Ersetze alle Feldwerte [ Mit Dialog: ON ; _Syntax::On ; Aktueller Inhalt ]"
            .to_string(),
    );
    assert_eq!(sanitize(xml_input.trim()), expected_output);
}

#[test]
fn test_auto_increment_dialog() {
    let xml_input = "
    <Step id=\"91\" name=\"Ersetze alle Feldwerte\" enable=\"True\">
        <Options>5</Options>
        <ParameterValues membercount=\"3\">
            <Parameter type=\"Boolean\">
                <Boolean type=\"Mit Dialog\" id=\"128\" value=\"True\"></Boolean>
            </Parameter>
            <Parameter type=\"FieldReference\">
                <FieldReference id=\"6\" name=\"On\">
                    <repetition value=\"1\"></repetition>
                    <TableOccurrenceReference id=\"1065113\" name=\"_Syntax\"></TableOccurrenceReference>
                </FieldReference>
            </Parameter>
            <Parameter type=\"replace\">
                <List name=\"Durch fortlaufende Nummern ersetzen: \" value=\"2\">
                    <List name=\"Werte der Eingabeoptionen\" value=\"True\"></List>
                    <Boolean type=\"Eingabeoptionen aktualisieren\" value=\"False\"></Boolean>
                </List>
            </Parameter>
        </ParameterValues>
    </Step>";

    let expected_output = Some("Ersetze alle Feldwerte [ Mit Dialog: ON ; _Syntax::On ; Durch fortlaufende Nummern ersetzen: Werte der Eingabeoptionen ]".to_string());
    assert_eq!(sanitize(xml_input.trim()), expected_output);
}

#[test]
fn test_auto_increment_fixed_values() {
    let xml_input = "
    <Step id=\"91\" name=\"Ersetze alle Feldwerte\" enable=\"True\">
        <Options>5</Options>
        <ParameterValues membercount=\"3\">
            <Parameter type=\"Boolean\">
                <Boolean type=\"Mit Dialog\" id=\"128\" value=\"True\"></Boolean>
            </Parameter>
            <Parameter type=\"FieldReference\">
                <FieldReference id=\"6\" name=\"On\">
                    <repetition value=\"1\"></repetition>
                    <TableOccurrenceReference id=\"1065113\" name=\"_Syntax\"></TableOccurrenceReference>
                </FieldReference>
            </Parameter>
            <Parameter type=\"replace\">
                <List name=\"Durch fortlaufende Nummern ersetzen: \" value=\"2\">
                    <List name=\"Werte der Eingabeoptionen\" value=\"False\">
                        <Initial value=\"1\"></Initial>
                        <increment value=\"1\"></increment>
                    </List>
                    <Boolean type=\"Eingabeoptionen aktualisieren\" value=\"False\"></Boolean>
                </List>
            </Parameter>
        </ParameterValues>
    </Step>";

    let expected_output = Some("Ersetze alle Feldwerte [ Mit Dialog: ON ; _Syntax::On ; Durch fortlaufende Nummern ersetzen ; Initial: 1 ; Interval: 1 ]".to_string());
    assert_eq!(sanitize(xml_input.trim()), expected_output);
}

#[test]
fn test_auto_increment_and_update_options() {
    let xml_input = "
    <Step id=\"91\" name=\"Ersetze alle Feldwerte\" enable=\"True\">
        <Options>5</Options>
        <ParameterValues membercount=\"3\">
            <Parameter type=\"Boolean\">
                <Boolean type=\"Mit Dialog\" id=\"128\" value=\"True\"></Boolean>
            </Parameter>
            <Parameter type=\"FieldReference\">
                <FieldReference id=\"12\" name=\"__ID\">
                    <repetition value=\"1\"></repetition>
                    <TableOccurrenceReference id=\"1065113\" name=\"_Syntax\"></TableOccurrenceReference>
                </FieldReference>
            </Parameter>
            <Parameter type=\"replace\">
                <List name=\"Durch fortlaufende Nummern ersetzen: \" value=\"2\">
                    <List name=\"Werte der Eingabeoptionen\" value=\"False\">
                        <Initial value=\"100\"></Initial>
                        <increment value=\"10\"></increment>
                    </List>
                    <Boolean type=\"Eingabeoptionen aktualisieren\" value=\"True\"></Boolean>
                </List>
            </Parameter>
        </ParameterValues>
    </Step>";

    let expected_output = Some("Ersetze alle Feldwerte [ Mit Dialog: ON ; _Syntax::__ID ; Durch fortlaufende Nummern ersetzen ; Eingabeoptionen aktualisieren: ON ; Initial: 100 ; Interval: 10 ]".to_string());
    assert_eq!(sanitize(xml_input.trim()), expected_output);
}

#[test]
fn test_auto_increment_dialog_given_start_and_interval() {
    let xml_input = "
    <Step id=\"91\" name=\"Ersetze alle Feldwerte\" enable=\"True\">
        <Options>5</Options>
        <ParameterValues membercount=\"3\">
            <Parameter type=\"Boolean\">
                <Boolean type=\"Mit Dialog\" id=\"128\" value=\"True\"></Boolean>
            </Parameter>
            <Parameter type=\"FieldReference\">
                <FieldReference id=\"12\" name=\"__ID\">
                    <repetition value=\"1\"></repetition>
                    <TableOccurrenceReference id=\"1065113\" name=\"_Syntax\"></TableOccurrenceReference>
                </FieldReference>
            </Parameter>
            <Parameter type=\"replace\">
                <List name=\"Durch fortlaufende Nummern ersetzen: \" value=\"2\">
                    <List name=\"Werte der Eingabeoptionen\" value=\"False\">
                        <Initial value=\"100\"></Initial>
                        <increment value=\"10\"></increment>
                    </List>
                    <Boolean type=\"Eingabeoptionen aktualisieren\" value=\"True\"></Boolean>
                </List>
            </Parameter>
        </ParameterValues>
    </Step>";

    let expected_output = Some("Ersetze alle Feldwerte [ Mit Dialog: ON ; _Syntax::__ID ; Durch fortlaufende Nummern ersetzen ; Eingabeoptionen aktualisieren: ON ; Initial: 100 ; Interval: 10 ]".to_string());
    assert_eq!(sanitize(xml_input.trim()), expected_output);
}

#[test]
fn replace_field_contents_test_with_calculation() {
    let xml_input = "
    <Step id=\"91\" name=\"Ersetze alle Feldwerte\" enable=\"True\">
        <Options>16389</Options>
        <ParameterValues membercount=\"3\">
            <Parameter type=\"Boolean\">
                <Boolean type=\"Mit Dialog\" id=\"128\" value=\"True\"></Boolean>
            </Parameter>
            <Parameter type=\"FieldReference\">
                <FieldReference id=\"6\" name=\"On\">
                    <repetition value=\"1\"></repetition>
                    <TableOccurrenceReference id=\"1065113\" name=\"_Syntax\"></TableOccurrenceReference>
                </FieldReference>
            </Parameter>
            <Parameter type=\"replace\">
                <List name=\"Durch Berechnung ersetzen: \" value=\"3\">
                    <Calculation datatype=\"1\" position=\"0\">
                        <Calculation>
                            <Text><![CDATA[\"Calc\"]]></Text>
                            <ChunkList hash=\"B2984BE8225DC16063732A2220B18544\">
                                <Chunk type=\"NoRef\">&quot;Calc&quot;</Chunk>
                            </ChunkList>
                        </Calculation>
                    </Calculation>
                </List>
            </Parameter>
        </ParameterValues>
    </Step>";

    let expected_output =
        Some("Ersetze alle Feldwerte [ Mit Dialog: ON ; _Syntax::On ; Durch Berechnung ersetzen: \"Calc\" ]".to_string());
    assert_eq!(sanitize(xml_input.trim()), expected_output);
}
