use fm_xml_explode::script_steps::go_to_portal_row::sanitize;

#[test]
fn go_to_portal_row_test() {
    let xml = r#"
        <Step id="99" name="Gehe zu Ausschnittreihe" enable="True">
            <SourceUUID>1574DCD5-7ECE-4CE0-A443-E20F4770DC86</SourceUUID>
            <Options>4098</Options>
            <ParameterValues membercount="2">
                <Parameter type="Boolean">
                    <Boolean type="Auswahl" id="4096" value="True"></Boolean>
                </Parameter>
                <Parameter type="Portal">
                    <List name="Letzte(r)" value="2"></List>
                </Parameter>
            </ParameterValues>
        </Step>
    "#;

    let expected_output =
        Some("Gehe zu Ausschnittreihe [ Auswahl: ON ; Letzte(r) ]".to_string());
    assert_eq!(sanitize(xml.trim()), expected_output);
}
