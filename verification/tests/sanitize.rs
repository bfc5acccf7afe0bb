use fm_xml_explode::script_steps::sanitize::{from_xml, from_xml_checked};

#[test]
fn sanitize_test() {
    let xml = r#"<Step id="79" name="Fenster fixieren" enable="True">"#;

    let expected_output = Some("Fenster fixieren".to_string());
    let script_id: u32 = 79;
    assert_eq!(from_xml(&script_id, xml.trim()), expected_output);
}

#[test]
fn sanitize_test_enabled() {
    let xml = r#"
        <Step id="86" name="Fehleraufzeichnung setzen" enable="True">
            <Options>196608</Options>
            <ParameterValues membercount="1">
                <Parameter type="Boolean">
                    <Boolean id="131072" value="True"></Boolean>
                </Parameter>
            </ParameterValues>
        </Step>
    "#;

    let expected_output = Some("Fehleraufzeichnung setzen [ ON ]".to_string());
    let script_id: u32 = 86;
    assert_eq!(from_xml(&script_id, xml.trim()), expected_output);
}

#[test]
fn sanitize_test_disabled() {
    let xml = r#"
        <Step id="86" name="Fehleraufzeichnung setzen" enable="True">
            <Options>196608</Options>
            <ParameterValues membercount="1">
                <Parameter type="Boolean">
                    <Boolean id="131072" value="False"></Boolean>
                </Parameter>
            </ParameterValues>
        </Step>
    "#;

    let expected_output = Some("Fehleraufzeichnung setzen [ OFF ]".to_string());
    let script_id: u32 = 86;
    assert_eq!(from_xml(&script_id, xml.trim()), expected_output);
}

#[test]
fn sanitize_test_enter_find_mode() {
    let xml = r#"
        <Step id="22" name="Suchenmodus aktivieren" enable="True">
            <SourceUUID>3C5EBF9C-BAE0-460F-92AF-3FB73649951B</SourceUUID>
            <ParameterValues membercount="1">
                <Parameter type="Boolean">
                    <Boolean type="Pause" id="16777216" value="False"></Boolean>
                </Parameter>
            </ParameterValues>
        </Step>
    "#;

    let expected_output = Some("Suchenmodus aktivieren [ Pause: OFF ]".to_string());
    let script_id: u32 = 22;
    assert_eq!(from_xml(&script_id, xml.trim()), expected_output);
}

#[test]
fn test_truncate_table_broken_reference() {
    let xml = r#"
        <Step index="509" id="182" name="Tabelle leeren" enable="True">
            <UUID>25ED2DB6-D1D0-402A-8B5A-6A06505C0A2A</UUID>
            <OwnerID></OwnerID>
            <Options>138</Options>
            <ParameterValues membercount="2">
                <Parameter type="Boolean">
                    <Boolean type="Mit Dialog" id="128" value="False"></Boolean>
                </Parameter>
                <Parameter type="List">
                    <List name="&lt;Tabelle nicht vorhanden&gt;" value="1"></List>
                </Parameter>
            </ParameterValues>
        </Step>
    "#;

    let expected_output =
        Some("Tabelle leeren [ Mit Dialog: OFF ; <Tabelle nicht vorhanden> ]".to_string());
    let script_id: u32 = 182;
    assert_eq!(from_xml(&script_id, xml.trim()), expected_output);
}


#[test]
fn sanitize_commit_test() {
    let xml = r#"
        <Step id="75" name="Schreibe Änderung Datens./Abfrage" enable="True">
            <Options>384</Options>
            <ParameterValues membercount="3">
                <Parameter type="Boolean">
                    <Boolean type="Dateneingabeüberprüfung unterdrücken" id="256" value="False"></Boolean>
                </Parameter>
                <Parameter type="Boolean">
                    <Boolean type="Mit Dialog" id="128" value="False"></Boolean>
                </Parameter>
                <Parameter type="Boolean">
                    <Boolean type="Schreiben erzwingen" id="512" value="False"></Boolean>
                </Parameter>
            </ParameterValues>
        </Step>
    "#;

    let expected_output =
        Some("Schreibe Änderung Datens./Abfrage [ Mit Dialog: OFF ]".to_string());
    let script_id: u32 = 75;
    assert_eq!(from_xml(&script_id, xml.trim()), expected_output);
}

#[test]
fn sanitize_test_force() {
    let xml = r#"
        <Step id="75" name="Schreibe Änderung Datens./Abfrage" enable="True">
            <Options>384</Options>
            <ParameterValues membercount="3">
                <Parameter type="Boolean">
                    <Boolean type="Dateneingabeüberprüfung unterdrücken" id="256" value="False"></Boolean>
                </Parameter>
                <Parameter type="Boolean">
                    <Boolean type="Mit Dialog" id="128" value="False"></Boolean>
                </Parameter>
                <Parameter type="Boolean">
                    <Boolean type="Schreiben erzwingen" id="512" value="True"></Boolean>
                </Parameter>
            </ParameterValues>
        </Step>
    "#;

    let expected_output = Some(
        "Schreibe Änderung Datens./Abfrage [ Mit Dialog: OFF ; Schreiben erzwingen ]"
            .to_string(),
    );
    let script_id: u32 = 75;
    assert_eq!(from_xml(&script_id, xml.trim()), expected_output);
}

#[test]
fn sanitize_test_suppress_validate() {
    let xml = r#"
        <Step id="75" name="Schreibe Änderung Datens./Abfrage" enable="True">
            <Options>384</Options>
            <ParameterValues membercount="3">
                <Parameter type="Boolean">
                    <Boolean type="Dateneingabeüberprüfung unterdrücken" id="256" value="True"></Boolean>
                </Parameter>
                <Parameter type="Boolean">
                    <Boolean type="Mit Dialog" id="128" value="False"></Boolean>
                </Parameter>
                <Parameter type="Boolean">
                    <Boolean type="Schreiben erzwingen" id="512" value="False"></Boolean>
                </Parameter>
            </ParameterValues>
        </Step>
    "#;

    let expected_output = Some("Schreibe Änderung Datens./Abfrage [ Dateneingabeüberprüfung unterdrücken ; Mit Dialog: OFF ]".to_string());
    let script_id: u32 = 75;
    assert_eq!(from_xml(&script_id, xml.trim()), expected_output);
}

#[test]
fn sanitize_test_all_options() {
    let xml = r#"
        <Step id="75" name="Schreibe Änderung Datens./Abfrage" enable="True">
            <Options>384</Options>
            <ParameterValues membercount="3">
                <Parameter type="Boolean">
                    <Boolean type="Dateneingabeüberprüfung unterdrücken" id="256" value="True"></Boolean>
                </Parameter>
                <Parameter type="Boolean">
                    <Boolean type="Mit Dialog" id="128" value="True"></Boolean>
                </Parameter>
                <Parameter type="Boolean">
                    <Boolean type="Schreiben erzwingen" id="512" value="True"></Boolean>
                </Parameter>
            </ParameterValues>
        </Step>
    "#;

    let expected_output = Some("Schreibe Änderung Datens./Abfrage [ Dateneingabeüberprüfung unterdrücken ; Mit Dialog: ON ; Schreiben erzwingen ]".to_string());
    let script_id: u32 = 75;
    assert_eq!(from_xml(&script_id, xml.trim()), expected_output);
}

#[test]
fn test_new_window() {
    let xml = r#"
        <Step index="1" id="122" name="Neues Fenster" enable="True">
            <UUID>0376F75D-7B1E-41B9-A6D5-C585D2862A6A</UUID>
            <OwnerID></OwnerID>
            <Options>0</Options>
            <ParameterValues membercount="1">
                <Parameter type="WindowReference">
                    <WindowReference>
                        <Style name="Dokument" value="3606018"></Style>
                        <Name></Name>
                        <LayoutReferenceContainer value="1">
                            <Label>Originallayout</Label>
                        </LayoutReferenceContainer>
                        <Bounds>
                            <height></height>
                            <width></width>
                            <top></top>
                            <left></left>
                        </Bounds>
                        <Options value="3606018">
                            <Close>True</Close>
                            <Minimize>True</Minimize>
                            <Maximize>True</Maximize>
                            <Resize>True</Resize>
                            <MenuBar>True</MenuBar>
                            <Toolbar>True</Toolbar>
                            <DimParentWindow>False</DimParentWindow>
                        </Options>
                    </WindowReference>
                </Parameter>
            </ParameterValues>
        </Step>
    "#;

    let step_id: u32 = 122;
    let expected_output =
        Some("Neues Fenster [ Style: Dokument ; Layout: <Originallayout> ]".to_string());
    assert_eq!(from_xml(&step_id, xml.trim()), expected_output);
}

#[test]
fn test_new_window_with_sizes() {
    let xml = r#"
        <Step index="13" id="122" name="Neues Fenster" enable="True">
            <UUID>0612C406-BCCF-4636-946B-2EEB14EE69CF</UUID>
            <OwnerID></OwnerID>
            <Options>16392</Options>
            <ParameterValues membercount="1">
                <Parameter type="WindowReference">
                    <WindowReference>
                        <Style name="Dokument" value="3221291010"></Style>
                        <Name>
                            <Calculation datatype="1" position="0">
                                <Calculation>
                                    <Text><![CDATA["Foo Bar"]]></Text>
                                    <ChunkList hash="721B1A57045045B02A87AE94CE6EBD08">
                                        <Chunk type="NoRef">&quot;Foo Bar&quot;</Chunk>
                                    </ChunkList>
                                </Calculation>
                            </Calculation>
                        </Name>
                        <LayoutReferenceContainer value="1">
                            <Label>Originallayout</Label>
                        </LayoutReferenceContainer>
                        <Bounds>
                            <height>
                                <Calculation datatype="1" position="1">
                                    <Calculation>
                                        <Text><![CDATA[100]]></Text>
                                        <ChunkList hash="45A530D85F1E3C1F21F81650ACF37719">
                                            <Chunk type="NoRef">100</Chunk>
                                        </ChunkList>
                                    </Calculation>
                                </Calculation>
                            </height>
                            <width>
                                <Calculation datatype="1" position="2">
                                    <Calculation>
                                        <Text><![CDATA[200]]></Text>
                                        <ChunkList hash="8BE34A566DA016E82241E5F1CBBB81F3">
                                            <Chunk type="NoRef">200</Chunk>
                                        </ChunkList>
                                    </Calculation>
                                </Calculation>
                            </width>
                            <top>
                                <Calculation datatype="1" position="3">
                                    <Calculation>
                                        <Text><![CDATA[300]]></Text>
                                        <ChunkList hash="699252F1918300A60EF02F519F7447C7">
                                            <Chunk type="NoRef">300</Chunk>
                                        </ChunkList>
                                    </Calculation>
                                </Calculation>
                            </top>
                            <left>
                                <Calculation datatype="1" position="4">
                                    <Calculation>
                                        <Text><![CDATA[400]]></Text>
                                        <ChunkList hash="CAE3589A1895AE0560BE789B6E9902C1">
                                            <Chunk type="NoRef">400</Chunk>
                                        </ChunkList>
                                    </Calculation>
                                </Calculation>
                            </left>
                        </Bounds>
                        <Options value="3221291010">
                            <Close>True</Close>
                            <Minimize>False</Minimize>
                            <Maximize>False</Maximize>
                            <Resize>False</Resize>
                            <MenuBar>False</MenuBar>
                            <Toolbar>False</Toolbar>
                            <DimParentWindow>False</DimParentWindow>
                        </Options>
                    </WindowReference>
                </Parameter>
            </ParameterValues>
        </Step>
    "#;

    let step_id: u32 = 122;
    let expected_output = Some(r#"Neues Fenster [ Style: Dokument ; Name: "Foo Bar" ; Layout: <Originallayout> ; Height: 100 ; Width: 200 ; Top: 300 ; Left: 400 ; Minimize: OFF ; Maximize: OFF ; Resize: OFF ; Menu: OFF ; Toolbar: OFF ]"#.to_string());
    assert_eq!(from_xml(&step_id, xml.trim()), expected_output);
}

#[test]
fn comment_step_with_text() {
    let xml = r#"<Step id="89" name="Comment" enable="True"><ParameterValues membercount="1"><Parameter type="Comment"><Comment value="Lorem &amp; Ipsum"></Comment></Parameter></ParameterValues></Step>"#;
    let step_id: u32 = 89;
    assert_eq!(from_xml(&step_id, xml), Some("# Lorem & Ipsum".to_string()));
}

#[test]
fn empty_condition_keeps_brackets() {
    let xml = r#"<Step id="68" name="If" enable="True"></Step>"#;
    let step_id: u32 = 68;
    assert_eq!(from_xml(&step_id, xml), Some("If []".to_string()));
}

#[test]
fn unknown_parameter_type_leaves_a_note() {
    let xml = r#"<Step id="1" name="X" enable="True"><ParameterValues><Parameter type="Mystery"></Parameter></ParameterValues></Step>"#;
    let step_id: u32 = 1;
    assert_eq!(
        from_xml(&step_id, xml),
        Some("X [ ⚠️ PARAMETER \"Mystery\" NOT PARSED ⚠️ ]".to_string())
    );
}

#[test]
fn step_with_comment_that_does_not_unescape_is_refused() {
    let xml = r#"<Step id="89" name="Comment" enable="True"><ParameterValues><Parameter type="Comment"><Comment value="&bogus;"></Comment></Parameter></ParameterValues></Step>"#;
    let step_id: u32 = 89;
    assert_eq!(from_xml_checked(&step_id, xml), None);
}
