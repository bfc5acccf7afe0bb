use fm_xml_explode::script_steps::exit_script::sanitize;

#[test]
fn test_sanitize_without_calculation() {
    let xml_input =
        "<Step id=\"103\" name=\"Aktuelles Script verlassen\" enable=\"True\"></Step>";

    let expected_output = Some("Aktuelles Script verlassen []".to_string());
    assert_eq!(sanitize(xml_input.trim()), expected_output);
}

#[test]
fn test_sanitize_with_calculation() {
    let xml_input = "
		<Step id=\"103\" name=\"Aktuelles Script verlassen\" enable=\"True\">
			<Options>16384</Options>
			<ParameterValues membercount=\"1\">
				<Parameter type=\"Calculation\">
					<Calculation datatype=\"1\" position=\"0\">
						<Calculation>
							<Text><![CDATA[$Foo]]></Text>
							<ChunkList hash=\"3FC07F05CB535D7FBE7DBB56621B41CB\">
								<Chunk type=\"VariableReference\">$Foo</Chunk>
							</ChunkList>
						</Calculation>
					</Calculation>
				</Parameter>
			</ParameterValues>
		</Step>
    ";

    let expected_output = Some("Aktuelles Script verlassen [ $Foo ]".to_string());
    assert_eq!(sanitize(xml_input.trim()), expected_output);
}
