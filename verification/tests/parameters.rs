use fm_xml_explode::script_steps::parameters::animation::Animation;
use fm_xml_explode::script_steps::parameters::boolean::Boolean;
use fm_xml_explode::script_steps::parameters::boolean_container::BooleanContainer;
use fm_xml_explode::script_steps::parameters::button::Button;
use fm_xml_explode::script_steps::parameters::comment::Comment;
use fm_xml_explode::script_steps::parameters::dialog_field::DialogField;
use fm_xml_explode::script_steps::parameters::field_reference::FieldReference;
use fm_xml_explode::script_steps::parameters::layout_reference::LayoutReferenceContainer;
use fm_xml_explode::script_steps::parameters::list::List;
use fm_xml_explode::script_steps::parameters::parameter_values::ParameterValues;
use fm_xml_explode::script_steps::parameters::privilege_set_reference::PrivilegeSetReference;
use fm_xml_explode::script_steps::parameters::select::Select;
use fm_xml_explode::script_steps::parameters::style::Style;
use fm_xml_explode::script_steps::parameters::target::Target;
use fm_xml_explode::script_steps::parameters::text::Text;
use fm_xml_explode::script_steps::parameters::variable_reference::VariableReference;
use fm_xml_explode::script_steps::parameters::window_reference::WindowReference;
use fm_xml_explode::xml::{parse_events, XmlEvent, XmlReader};

fn events_of(xml: &str) -> Vec<XmlEvent> {
    parse_events(xml.trim())
}

fn first_start<'a>(reader: &mut XmlReader<'a>) -> &'a XmlEvent {
    match reader.read_event() {
        Some(e @ XmlEvent::Start { .. }) => e,
        _ => panic!("Wrong read event"),
    }
}

#[test]
fn boolean_test() {
    let xml = r#"
            <Parameter type="Boolean">
                <Boolean type="Pause" id="16777216" value="False"></Boolean>
            </Parameter>
        "#;
    let events = events_of(xml);
    let mut reader = XmlReader::new(&events);
    let element = first_start(&mut reader);
    let expected_output = "Pause: OFF".to_string();
    assert_eq!(
        Boolean::from_xml(&mut reader, element, 0).unwrap().display().unwrap(),
        expected_output
    );
}

#[test]
fn test_without_name() {
    let xml = r#"
            <Parameter type="Boolean">
                <Boolean value="False"></Boolean>
            </Parameter>
        "#;
    let events = events_of(xml);
    let mut reader = XmlReader::new(&events);
    let element = first_start(&mut reader);
    let expected_output = "OFF".to_string();
    assert_eq!(
        Boolean::from_xml(&mut reader, element, 0).unwrap().display().unwrap(),
        expected_output
    );
}

#[test]
fn boolean_container_test() {
    let xml = r#"<Close>False</Close>"#;
    let events = events_of(xml);
    let mut reader = XmlReader::new(&events);
    let element = first_start(&mut reader);
    let expected_output = "Close: OFF".to_string();
    assert_eq!(
        BooleanContainer::from_xml(&mut reader, element).display().unwrap_or_default(),
        expected_output
    );
}

#[test]
fn test_button_with_calculation() {
    let xml = r#"
            <Parameter type="Button1">
                <Calculation datatype="1" position="5">
                    <Calculation>
                        <Text><![CDATA["OK"]]></Text>
                    </Calculation>
                </Calculation>
                <Boolean type="Commit" value="False"></Boolean>
            </Parameter>
        "#;
    let events = events_of(xml);
    let mut reader = XmlReader::new(&events);
    let element = first_start(&mut reader);
    let button = Button::from_xml(&mut reader, element);
    assert_eq!(button.label, Some(r#""OK""#.to_string()));
    assert!(!button.commit);
    assert_eq!(button.display("Button1"), Some(r#"Default Button: "OK""#.to_string()));
}

#[test]
fn test_button_with_value_attribute() {
    let xml = r#"
            <Parameter type="Button1" value="Save">
                <Boolean type="Commit" value="True"></Boolean>
            </Parameter>
        "#;
    let events = events_of(xml);
    let mut reader = XmlReader::new(&events);
    let element = first_start(&mut reader);
    let button = Button::from_xml(&mut reader, element);
    assert_eq!(button.label, Some("Save".to_string()));
    assert!(button.commit);
    assert_eq!(button.display("Button2"), Some("Button 2: Save".to_string()));
}

#[test]
fn test_empty_button() {
    let xml = r#"
            <Parameter type="Button2">
                <Boolean type="Commit" value="False"></Boolean>
            </Parameter>
        "#;
    let events = events_of(xml);
    let mut reader = XmlReader::new(&events);
    let element = first_start(&mut reader);
    let button = Button::from_xml(&mut reader, element);
    assert_eq!(button.label, None);
    assert!(!button.commit);
    assert_eq!(button.display("Button2"), None);
}

#[test]
fn test_button3_display() {
    let xml = r#"
            <Parameter type="Button3" value="Maybe">
                <Boolean type="Commit" value="False"></Boolean>
            </Parameter>
        "#;
    let events = events_of(xml);
    let mut reader = XmlReader::new(&events);
    let element = first_start(&mut reader);
    let button = Button::from_xml(&mut reader, element);
    assert_eq!(button.display("Button3"), Some("Button 3: Maybe".to_string()));
}

const FIELD1_XML: &str = r#"
            <Parameter type="Field1">
                <Parameter type="Target">
                    <Variable value="$input1">
                        <repetition>
                            <Calculation datatype="1" position="32">
                                <Calculation>
                                    <Text><![CDATA[1]]></Text>
                                </Calculation>
                            </Calculation>
                        </repetition>
                    </Variable>
                </Parameter>
                <Boolean type="Password" value="False"></Boolean>
                <Parameter type="Label">
                    <Calculation datatype="1" position="2">
                        <Calculation>
                            <Text><![CDATA["label1"]]></Text>
                        </Calculation>
                    </Calculation>
                </Parameter>
            </Parameter>
        "#;

#[test]
fn test_field_with_variable_and_label() {
    let events = events_of(FIELD1_XML);
    let mut reader = XmlReader::new(&events);
    let element = first_start(&mut reader);
    let field = DialogField::from_xml(&mut reader, element);
    assert_eq!(field.target, Some("$input1".to_string()));
    assert_eq!(field.label, Some(r#""label1""#.to_string()));
    assert!(!field.password);
    assert_eq!(
        field.display("Field1"),
        Some(r#"Input 1: $input1 ; Label 1: "label1""#.to_string())
    );
}

#[test]
fn test_field_with_password() {
    let xml = FIELD1_XML.replace(
        r#"<Boolean type="Password" value="False">"#,
        r#"<Boolean type="Password" value="True">"#,
    );
    let events = events_of(&xml);
    let mut reader = XmlReader::new(&events);
    let element = first_start(&mut reader);
    let field = DialogField::from_xml(&mut reader, element);
    assert!(field.password);
    assert_eq!(
        field.display("Field1"),
        Some(r#"Input 1: $input1 ; Label 1: "label1" ; Password"#.to_string())
    );
}

#[test]
fn test_field2_display() {
    let xml = r#"
            <Parameter type="Field2">
                <Parameter type="Target">
                    <Variable value="$input2">
                        <repetition>
                            <Calculation datatype="1" position="33">
                                <Calculation>
                                    <Text><![CDATA[1]]></Text>
                                </Calculation>
                            </Calculation>
                        </repetition>
                    </Variable>
                </Parameter>
                <Boolean type="Password" value="False"></Boolean>
                <Parameter type="Label">
                    <Calculation datatype="1" position="3">
                        <Calculation>
                            <Text><![CDATA["second"]]></Text>
                        </Calculation>
                    </Calculation>
                </Parameter>
            </Parameter>
        "#;
    let events = events_of(xml);
    let mut reader = XmlReader::new(&events);
    let element = first_start(&mut reader);
    let field = DialogField::from_xml(&mut reader, element);
    assert_eq!(
        field.display("Field2"),
        Some(r#"Input 2: $input2 ; Label 2: "second""#.to_string())
    );
}

#[test]
fn test_field_reference() {
    let xml = r#"
            <FieldReference id="4" name="Bar">
                <repetition value="1"></repetition>
                <TableOccurrenceReference id="1065090" name="Foo"></TableOccurrenceReference>
            </FieldReference>
        "#;
    let events = events_of(xml);
    let mut reader = XmlReader::new(&events);
    let element = first_start(&mut reader);
    let expected_output = "Foo::Bar".to_string();
    assert_eq!(
        FieldReference::from_xml(&mut reader, element).unwrap().display().unwrap(),
        expected_output
    );
}

#[test]
fn test_field_reference_with_repetition() {
    let xml = r#"
            <FieldReference id="4" name="Bar">
                <repetition value="1337"></repetition>
                <TableOccurrenceReference id="1065090" name="Foo"></TableOccurrenceReference>
            </FieldReference>
        "#;
    let events = events_of(xml);
    let mut reader = XmlReader::new(&events);
    let element = first_start(&mut reader);
    let expected_output = "Foo::Bar[1337]".to_string();
    assert_eq!(
        FieldReference::from_xml(&mut reader, element).unwrap().display().unwrap(),
        expected_output
    );
}

fn layout_display(xml: &str) -> Option<String> {
    let events = events_of(xml);
    let mut reader = XmlReader::new(&events);
    let element = first_start(&mut reader);
    LayoutReferenceContainer::from_xml(&mut reader, element).unwrap().display()
}

#[test]
fn layout_reference_test() {
    let xml = r#"
            <LayoutReferenceContainer value="1">
                <Label>Originallayout</Label>
            </LayoutReferenceContainer>
        "#;
    assert_eq!(layout_display(xml), Some("Layout: <Originallayout>".to_string()));
}

#[test]
fn layout_reference_test_layout() {
    let xml = r#"
            <LayoutReferenceContainer value="5">
                <LayoutReference id="2" name="Aufgabenliste" UUID="EBFC887D-CF13-4ABE-BB71-78EDC2B30FEE"></LayoutReference>
            </LayoutReferenceContainer>
        "#;
    assert_eq!(layout_display(xml), Some(r#"Layout: "Aufgabenliste""#.to_string()));
}

#[test]
fn layout_reference_test_by_name() {
    let xml = r#"
            <LayoutReferenceContainer value="3">
                <Calculation datatype="1" position="5">
                    <Calculation>
                        <Text><![CDATA["LAYOUT_NAME_CALCULATION"]]></Text>
                        <ChunkList hash="56E1B7D90047D6C6C4421314C701E408">
                            <Chunk type="NoRef">&quot;LAYOUT_NAME_CALCULATION&quot;</Chunk>
                        </ChunkList>
                    </Calculation>
                </Calculation>
            </LayoutReferenceContainer>
        "#;
    assert_eq!(
        layout_display(xml),
        Some(r#"Layoutname: "LAYOUT_NAME_CALCULATION""#.to_string())
    );
}

#[test]
fn test_parameter_value_item() {
    let xml = r#"
            <Parameter type="LayoutReferenceContainer">
                <LayoutReferenceContainer value="5">
                    <LayoutReference id="8" name="Palettes"></LayoutReference>
                </LayoutReferenceContainer>
            </Parameter>
        "#;
    assert_eq!(layout_display(xml), Some(r#"Layout: "Palettes""#.to_string()));
}

#[test]
fn list_test() {
    let xml = r#"
            <Parameter type="List">
                <List id="136" name="_Home" UUID="C012F95A-8FC4-41A9-B354-2F21FE641437"></List>
            </Parameter>
        "#;
    let events = events_of(xml);
    let mut reader = XmlReader::new(&events);
    let element = first_start(&mut reader);
    let expected_output = "_Home".to_string();
    let script_id: u32 = 136;
    assert_eq!(
        List::from_xml(&mut reader, element, &script_id).unwrap().display().unwrap(),
        expected_output
    );
}

#[test]
fn parameter_values_test() {
    let xml = r#"
            <ParameterValues membercount="1">
                <Parameter type="Boolean">
                    <Boolean type="Pause" id="16777216" value="False"></Boolean>
                </Parameter>
            </ParameterValues>
        "#;
    let events = events_of(xml);
    let mut reader = XmlReader::new(&events);
    let element = first_start(&mut reader);
    let expected_output = "Pause: OFF";
    assert_eq!(ParameterValues::from_xml(&mut reader, element, 0).display(), expected_output);
}

#[test]
fn test_known() {
    let xml = r#"
            <Parameter type="PrivilegeSetReference">
                <PrivilegeSetReference id="2" name="[Data Entry Only]"></PrivilegeSetReference>
            </Parameter>
        "#;
    let events = events_of(xml);
    let mut reader = XmlReader::new(&events);
    let element = first_start(&mut reader);
    let expected_output = "[Data Entry Only]".to_string();
    assert_eq!(
        PrivilegeSetReference::from_xml(&mut reader, element).display().unwrap(),
        expected_output
    );
}

#[test]
fn test_unknown() {
    let xml = r#"
            <Parameter type="PrivilegeSetReference">
                <PrivilegeSetReference id="0" name="&lt;unknown&gt;"></PrivilegeSetReference>
            </Parameter>
        "#;
    let events = events_of(xml);
    let mut reader = XmlReader::new(&events);
    let element = first_start(&mut reader);
    let expected_output = "<unknown>".to_string();
    assert_eq!(
        PrivilegeSetReference::from_xml(&mut reader, element).display().unwrap(),
        expected_output
    );
}

#[test]
fn select_test() {
    let xml = r#"<Select kind="0" type="current"></Select>"#;
    let events = events_of(xml);
    let mut reader = XmlReader::new(&events);
    let element = first_start(&mut reader);
    assert_eq!(Select::from_xml(&mut reader, element).unwrap().display(), None);
}

#[test]
fn test_calc_name() {
    let xml = r#"
            <Select kind="1" type="Calculated">
                <Name current="True">
                    <Calculation datatype="1" position="0">
                        <Calculation>
                            <Text><![CDATA[$FensterName]]></Text>
                            <ChunkList hash="F664CE455D905B4C61115DE802697AE3">
                                <Chunk type="VariableReference">$FensterName</Chunk>
                            </ChunkList>
                        </Calculation>
                    </Calculation>
                </Name>
            </Select>
        "#;
    let events = events_of(xml);
    let mut reader = XmlReader::new(&events);
    let element = first_start(&mut reader);
    assert_eq!(
        Select::from_xml(&mut reader, element).unwrap().display(),
        Some("Name: $FensterName".to_string())
    );
}

#[test]
fn style_test() {
    let xml = r#"<Style name="Dokument" value="3221291010"></Style>"#;
    let events = events_of(xml);
    let mut reader = XmlReader::new(&events);
    let element = first_start(&mut reader);
    let expected_output = "Style: Dokument".to_string();
    assert_eq!(Style::from_xml(&mut reader, element).display().unwrap(), expected_output);
}

#[test]
fn target_test() {
    let xml = r#"
            <Parameter type="Target">
                <Variable value="$foo">
                    <repetition value="1"></repetition>
                </Variable>
            </Parameter>
        "#;
    let events = events_of(xml);
    let mut reader = XmlReader::new(&events);
    let element = first_start(&mut reader);
    let expected_output = "$foo".to_string();
    assert_eq!(Target::from_xml(&mut reader, element).display().unwrap(), expected_output);
}

#[test]
fn text_test() {
    let xml = r#"<Text value="a&#13;b&#13;c"></Text>"#;
    let events = events_of(xml);
    let mut reader = XmlReader::new(&events);
    let element = first_start(&mut reader);
    let expected_output = "a\rb\rc".to_string();
    assert_eq!(Text::from_xml(&mut reader, element).display().unwrap(), expected_output);
}

#[test]
fn variable_reference_test() {
    let xml = r#"
            <Variable value="$foo">
                <repetition value="1"></repetition>
            </Variable>
        "#;
    let events = events_of(xml);
    let mut reader = XmlReader::new(&events);
    let element = first_start(&mut reader);
    let expected_output = "$foo".to_string();
    assert_eq!(
        VariableReference::from_xml(&mut reader, element).display().unwrap(),
        expected_output
    );
}

#[test]
fn test_with_repetition() {
    let xml = r#"
            <Variable value="$foo">
                <repetition value="1337"></repetition>
            </Variable>
        "#;
    let events = events_of(xml);
    let mut reader = XmlReader::new(&events);
    let element = first_start(&mut reader);
    let expected_output = "$foo[1337]".to_string();
    assert_eq!(
        VariableReference::from_xml(&mut reader, element).display().unwrap(),
        expected_output
    );
}

fn window_display(xml: &str) -> String {
    let events = events_of(xml);
    let mut reader = XmlReader::new(&events);
    let element = first_start(&mut reader);
    WindowReference::from_xml(&mut reader, element).display()
}

#[test]
fn window_reference_test() {
    let xml = r#"
            <Parameter type="WindowReference">
                <WindowReference>
                    <Style name="Dokument" value="3606018"></Style>
                    <Name></Name>
                    <LayoutReferenceContainer value="1">
                        <Label>Originallayout</Label>
                    </LayoutReferenceContainer>
                    <Bounds>
                        <height></height>
                        <width></width>
                        <top></top>
                        <left></left>
                    </Bounds>
                    <Options value="3606018">
                        <Close>True</Close>
                        <Minimize>True</Minimize>
                        <Maximize>True</Maximize>
                        <Resize>True</Resize>
                        <MenuBar>True</MenuBar>
                        <Toolbar>True</Toolbar>
                        <DimParentWindow>True</DimParentWindow>
                    </Options>
                </WindowReference>
            </Parameter>
        "#;
    assert_eq!(window_display(xml), "Style: Dokument ; Layout: <Originallayout>");
}

#[test]
fn window_reference_test_window_size() {
    let xml = r#"
            <Parameter type="WindowReference">
                <WindowReference>
                    <Style name="Dokument" value="3221291010"></Style>
                    <Name>
                        <Calculation datatype="1" position="0">
                            <Calculation>
                                <Text><![CDATA["Foo Bar"]]></Text>
                                <ChunkList hash="721B1A57045045B02A87AE94CE6EBD08">
                                    <Chunk type="NoRef">&quot;Foo Bar&quot;</Chunk>
                                </ChunkList>
                            </Calculation>
                        </Calculation>
                    </Name>
                    <LayoutReferenceContainer value="1">
                        <Label>Originallayout</Label>
                    </LayoutReferenceContainer>
                    <Bounds>
                        <height>
                            <Calculation datatype="1" position="1">
                                <Calculation>
                                    <Text><![CDATA[100]]></Text>
                                </Calculation>
                            </Calculation>
                        </height>
                        <width>
                            <Calculation datatype="1" position="2">
                                <Calculation>
                                    <Text><![CDATA[200]]></Text>
                                </Calculation>
                            </Calculation>
                        </width>
                        <top>
                            <Calculation datatype="1" position="3">
                                <Calculation>
                                    <Text><![CDATA[300]]></Text>
                                </Calculation>
                            </Calculation>
                        </top>
                        <left>
                            <Calculation datatype="1" position="4">
                                <Calculation>
                                    <Text><![CDATA[400]]></Text>
                                </Calculation>
                            </Calculation>
                        </left>
                    </Bounds>
                    <Options value="3221291010">
                        <Close>True</Close>
                        <Minimize>False</Minimize>
                        <Maximize>False</Maximize>
                        <Resize>False</Resize>
                        <MenuBar>False</MenuBar>
                        <Toolbar>False</Toolbar>
                        <DimParentWindow>False</DimParentWindow>
                    </Options>
                </WindowReference>
            </Parameter>
        "#;
    let expected_output = r#"Style: Dokument ; Name: "Foo Bar" ; Layout: <Originallayout> ; Height: 100 ; Width: 200 ; Top: 300 ; Left: 400 ; Minimize: OFF ; Maximize: OFF ; Resize: OFF ; Menu: OFF ; Toolbar: OFF"#;
    assert_eq!(window_display(xml), expected_output);
}

#[test]
fn test_adjust_window() {
    let xml = r#"
           <Parameter type="WindowReference">
                 <WindowReference>
                    <Select kind="0" type="current"></Select>
                    <Bounds>
                        <height>
                            <Calculation datatype="1" position="1">
                                <Calculation>
                                    <Text><![CDATA[$$AppWindowHeight]]></Text>
                                </Calculation>
                            </Calculation>
                        </height>
                        <width>
                            <Calculation datatype="1" position="2">
                                <Calculation>
                                    <Text><![CDATA[$$AppWindowWidth]]></Text>
                                </Calculation>
                            </Calculation>
                        </width>
                        <top>
                            <Calculation datatype="1" position="3">
                                <Calculation>
                                    <Text><![CDATA[0]]></Text>
                                </Calculation>
                            </Calculation>
                        </top>
                        <left>
                            <Calculation datatype="1" position="4">
                                <Calculation>
                                    <Text><![CDATA[0]]></Text>
                                </Calculation>
                            </Calculation>
                        </left>
                    </Bounds>
                </WindowReference>
           </Parameter>
        "#;
    assert_eq!(
        window_display(xml),
        r#"Height: $$AppWindowHeight ; Width: $$AppWindowWidth ; Top: 0 ; Left: 0"#
    );
}

#[test]
fn animation_reads_name() {
    let xml = r#"<Parameter type="Animation"><Animation name="Slide in from left" value="1"></Animation></Parameter>"#;
    let events = events_of(xml);
    let mut reader = XmlReader::new(&events);
    let element = first_start(&mut reader);
    assert_eq!(
        Animation::from_xml(&mut reader, element).display(),
        Some("Animation: Slide in from left".to_string())
    );
}

#[test]
fn comment_unescapes() {
    let xml = r#"<Parameter type="Comment"><Comment value="a &amp; b"></Comment></Parameter>"#;
    let events = events_of(xml);
    let mut reader = XmlReader::new(&events);
    let element = first_start(&mut reader);
    assert_eq!(Comment::from_xml(&mut reader, element), Ok("a & b".to_string()));
}

#[test]
fn comment_that_does_not_unescape_is_refused() {
    let xml = r#"<Parameter type="Comment"><Comment value="a &bogus; b"></Comment></Parameter>"#;
    let events = events_of(xml);
    let mut reader = XmlReader::new(&events);
    let element = first_start(&mut reader);
    assert_eq!(Comment::from_xml_checked(&mut reader, element), None);
    assert_eq!(reader.pos, 1);
}
