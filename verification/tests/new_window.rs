use fm_xml_explode::script_steps::new_window::{sanitize, sanitize_checked};

#[test]
fn new_window_test() {
    let xml = r#"
        <Step index="1" id="122" name="Neues Fenster" enable="True">
            <UUID>0376F75D-7B1E-41B9-A6D5-C585D2862A6A</UUID>
            <OwnerID></OwnerID>
            <Options>0</Options>
            <ParameterValues membercount="1">
                <Parameter type="WindowReference">
                    <WindowReference>
                        <Style name="Dokument" value="3606018"></Style>
                        <Name></Name>
                        <LayoutReferenceContainer value="1">
                            <Label>Originallayout</Label>
                        </LayoutReferenceContainer>
                        <Bounds>
                            <height></height>
                            <width></width>
                            <top></top>
                            <left></left>
                        </Bounds>
                        <Options value="3606018">
                            <Close>True</Close>
                            <Minimize>True</Minimize>
                            <Maximize>True</Maximize>
                            <Resize>True</Resize>
                            <MenuBar>True</MenuBar>
                            <Toolbar>True</Toolbar>
                            <DimParentWindow>True</DimParentWindow>
                        </Options>
                    </WindowReference>
                </Parameter>
            </ParameterValues>
        </Step>
    "#;

    let expected_output =
        Some("Neues Fenster [ Style: Dokument ; Layout: <Originallayout> ]".to_string());
    assert_eq!(sanitize(xml.trim()), expected_output);
    assert_eq!(sanitize_checked(xml.trim()), Some(expected_output));
}

#[test]
fn new_window_test_window_size() {
    let xml = r#"
        <Step index="13" id="122" name="Neues Fenster" enable="True">
            <UUID>0612C406-BCCF-4636-946B-2EEB14EE69CF</UUID>
            <OwnerID></OwnerID>
            <Options>16392</Options>
            <ParameterValues membercount="1">
                <Parameter type="WindowReference">
                    <WindowReference>
                        <Style name="Dokument" value="3221291010"></Style>
                        <Name>
                            <Calculation datatype="1" position="0">
                                <Calculation>
                                    <Text><![CDATA["Foo Bar"]]></Text>
                                    <ChunkList hash="721B1A57045045B02A87AE94CE6EBD08">
                                        <Chunk type="NoRef">&quot;Foo Bar&quot;</Chunk>
                                    </ChunkList>
                                </Calculation>
                            </Calculation>
                        </Name>
                        <LayoutReferenceContainer value="1">
                            <Label>Originallayout</Label>
                        </LayoutReferenceContainer>
                        <Bounds>
                            <height>
                                <Calculation datatype="1" position="1">
                                    <Calculation>
                                        <Text><![CDATA[100]]></Text>
                                        <ChunkList hash="45A530D85F1E3C1F21F81650ACF37719">
                                            <Chunk type="NoRef">100</Chunk>
                                        </ChunkList>
                                    </Calculation>
                                </Calculation>
                            </height>
                            <width>
                                <Calculation datatype="1" position="2">
                                    <Calculation>
                                        <Text><![CDATA[200]]></Text>
                                        <ChunkList hash="8BE34A566DA016E82241E5F1CBBB81F3">
                                            <Chunk type="NoRef">200</Chunk>
                                        </ChunkList>
                                    </Calculation>
                                </Calculation>
                            </width>
                            <top>
                                <Calculation datatype="1" position="3">
                                    <Calculation>
                                        <Text><![CDATA[300]]></Text>
                                        <ChunkList hash="699252F1918300A60EF02F519F7447C7">
                                            <Chunk type="NoRef">300</Chunk>
                                        </ChunkList>
                                    </Calculation>
                                </Calculation>
                            </top>
                            <left>
                                <Calculation datatype="1" position="4">
                                    <Calculation>
                                        <Text><![CDATA[400]]></Text>
                                        <ChunkList hash="CAE3589A1895AE0560BE789B6E9902C1">
                                            <Chunk type="NoRef">400</Chunk>
                                        </ChunkList>
                                    </Calculation>
                                </Calculation>
                            </left>
                        </Bounds>
                        <Options value="3221291010">
                            <Close>True</Close>
                            <Minimize>False</Minimize>
                            <Maximize>False</Maximize>
                            <Resize>False</Resize>
                            <MenuBar>False</MenuBar>
                            <Toolbar>False</Toolbar>
                            <DimParentWindow>False</DimParentWindow>
                        </Options>
                    </WindowReference>
                </Parameter>
            </ParameterValues>
        </Step>
    "#;

    let expected_output = Some(r#"Neues Fenster [ Style: Dokument ; Name: "Foo Bar" ; Layout: <Originallayout> ; Height: 100 ; Width: 200 ; Top: 300 ; Left: 400 ; Minimize: OFF ; Maximize: OFF ; Resize: OFF ; Menu: OFF ; Toolbar: OFF ]"#.to_string());
    assert_eq!(sanitize(xml.trim()), expected_output);
    assert_eq!(sanitize_checked(xml.trim()), Some(expected_output));
}

#[test]
fn new_window_without_options_lists_them_off() {
    let xml = r#"<Step id="122" name="New Window" enable="True"></Step>"#;
    assert_eq!(
        sanitize(xml),
        Some("New Window [ Close: OFF ; Minimize: OFF ; Maximize: OFF ; Resize: OFF ; Menu: OFF ; Toolbar: OFF ]".to_string())
    );
}

#[test]
fn new_window_style_without_name_is_refused() {
    let xml = r#"<Step id="122" name="New Window" enable="True"><Style value="1"></Style></Step>"#;
    assert_eq!(sanitize_checked(xml), None);
}
