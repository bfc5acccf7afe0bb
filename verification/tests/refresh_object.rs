use fm_xml_explode::script_steps::refresh_object::sanitize;

#[test]
fn refresh_object_test_sanitize() {
    let xml_input = "
    <Step index=\"1\" id=\"167\" name=\"Objekt aktualisieren\" enable=\"True\">
        <UUID>B15C461D-629E-4EE6-990A-81AC5D203DA2</UUID>
        <OwnerID></OwnerID>
        <Options>0</Options>
        <ParameterValues membercount=\"1\">
            <Parameter type=\"Object\">
                <Name></Name>
                <repetition></repetition>
            </Parameter>
        </ParameterValues>
    </Step>
    ";

    let expected_output = Some("Objekt aktualisieren []".to_string());
    assert_eq!(sanitize(xml_input.trim()), expected_output);
}

#[test]
fn refresh_object_test_sanitize_by_name() {
    let xml_input = "
    <Step index=\"2\" id=\"167\" name=\"Objekt aktualisieren\" enable=\"True\">
        <UUID>8A55155F-0DEF-40C6-842B-5A8DDE9E2289</UUID>
        <OwnerID></OwnerID>
        <Options>16384</Options>
        <ParameterValues membercount=\"1\">
            <Parameter type=\"Object\">
                <Name>
                    <Calculation datatype=\"1\" position=\"0\">
                        <Calculation>
                            <Text><![CDATA[\"Foo\"]]></Text>
                            <ChunkList hash=\"49C67A24DD1D8846365084DF7F1C0809\">
                                <Chunk type=\"NoRef\">&quot;Foo&quot;</Chunk>
                            </ChunkList>
                        </Calculation>
                    </Calculation>
                </Name>
                <repetition>
                    <Calculation datatype=\"1\" position=\"1\">
                        <Calculation>
                            <Text><![CDATA[1]]></Text>
                            <ChunkList hash=\"A93F17BC54CA1958073B692697D5ED21\">
                                <Chunk type=\"NoRef\">1</Chunk>
                            </ChunkList>
                        </Calculation>
                    </Calculation>
                </repetition>
            </Parameter>
        </ParameterValues>
    </Step>
    ";

    let expected_output = Some("Objekt aktualisieren [ Name: \"Foo\" ]".to_string());
    assert_eq!(sanitize(xml_input.trim()), expected_output);
}

#[test]
fn test_sanitize_by_name_with_rep() {
    let xml_input = "
    <Step index=\"3\" id=\"167\" name=\"Objekt aktualisieren\" enable=\"True\">
        <UUID>6E838F90-D32C-480C-B0C9-3D6510F0904F</UUID>
        <OwnerID></OwnerID>
        <Options>16384</Options>
        <ParameterValues membercount=\"1\">
            <Parameter type=\"Object\">
                <Name>
                    <Calculation datatype=\"1\" position=\"0\">
                        <Calculation>
                            <Text><![CDATA[\"Foo\"]]></Text>
                            <ChunkList hash=\"49C67A24DD1D8846365084DF7F1C0809\">
                                <Chunk type=\"NoRef\">&quot;Foo&quot;</Chunk>
                            </ChunkList>
                        </Calculation>
                    </Calculation>
                </Name>
                <repetition>
                    <Calculation datatype=\"1\" position=\"1\">
                        <Calculation>
                            <Text><![CDATA[2]]></Text>
                            <ChunkList hash=\"34108238C823509F293F7FC877DB5DF6\">
                                <Chunk type=\"NoRef\">2</Chunk>
                            </ChunkList>
                        </Calculation>
                    </Calculation>
                </repetition>
            </Parameter>
        </ParameterValues>
    </Step>
    ";

    let expected_output = Some("Objekt aktualisieren [ Name: \"Foo\" ; 2 ]".to_string());
    assert_eq!(sanitize(xml_input.trim()), expected_output);
}
