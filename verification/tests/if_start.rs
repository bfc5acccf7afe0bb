use fm_xml_explode::script_steps::if_start::sanitize;

#[test]
fn if_start_test_sanitize() {
    let xml_input = "
        <Step id=\"68\" name=\"Wenn\" enable=\"True\">
			<Options>16384</Options>
			<ParameterValues membercount=\"1\">
				<Parameter type=\"Calculation\">
					<Calculation datatype=\"7\" position=\"0\">
						<Calculation>
							<Text><![CDATA[Foo::Bar < Bar::Foo]]></Text>
							<ChunkList hash=\"CC82FAEEB3D0155273F45A7F1319068E\">
								<Chunk type=\"FieldRef\">
									<FieldReference id=\"4\" name=\"Bar\" repetition=\"1\">
										<TableOccurrenceReference id=\"1065089\" name=\"Foo\"></TableOccurrenceReference>
									</FieldReference>
								</Chunk>
								<Chunk type=\"NoRef\"> &lt; </Chunk>
								<Chunk type=\"FieldRef\">
									<FieldReference id=\"2\" name=\"Foo\" repetition=\"1\">
										<TableOccurrenceReference id=\"1065090\" name=\"Bar\"></TableOccurrenceReference>
									</FieldReference>
								</Chunk>
							</ChunkList>
						</Calculation>
					</Calculation>
				</Parameter>
			</ParameterValues>
		</Step>
    ";

    let expected_output = Some("Wenn [ Foo::Bar < Bar::Foo ]".to_string());
    assert_eq!(sanitize(xml_input.trim()), expected_output);
}

#[test]
fn test_sanitize_exit_loop_if() {
    let xml_input = "
		<Step id=\"72\" name=\"Verlasse Schleife wenn\" enable=\"True\">
			<SourceUUID>3ED7A361-42D8-43A8-9257-28E274A9ED6D</SourceUUID>
			<Options>16384</Options>
			<ParameterValues membercount=\"1\">
				<Parameter type=\"Calculation\">
					<Calculation datatype=\"7\" position=\"0\">
						<Calculation>
							<Text><![CDATA[$loopCount = $numberOfRelatedRecords]]></Text>
							<ChunkList hash=\"7BE699C2B6EC7CBB17F151DACAC0AFAB\">
								<Chunk type=\"VariableReference\">$loopCount</Chunk>
								<Chunk type=\"NoRef\"> = </Chunk>
								<Chunk type=\"VariableReference\">$numberOfRelatedRecords</Chunk>
							</ChunkList>
						</Calculation>
					</Calculation>
				</Parameter>
			</ParameterValues>
		</Step>
		";

    let expected_output =
        Some("Verlasse Schleife wenn [ $loopCount = $numberOfRelatedRecords ]".to_string());
    assert_eq!(sanitize(xml_input.trim()), expected_output);
}
