use fm_xml_explode::calculations::layout_reference::LayoutReferenceContainer;
use fm_xml_explode::xml::{parse_events, XmlEvent, XmlReader};

#[test]
fn calc_layout_reference_test() {
    let xml_input = "<LayoutReferenceContainer value=\"1\"><Label>Originallayout</Label></LayoutReferenceContainer>";

    let events = parse_events(xml_input.trim());
    let mut reader = XmlReader::new(&events);
    let element = match reader.read_event() {
        Some(e @ XmlEvent::Start { .. }) => e,
        _ => panic!("Wrong read event"),
    };

    let expected_output = Some("Layout: <Originallayout>".to_string());
    assert_eq!(
        LayoutReferenceContainer::from_xml(&mut reader, element)
            .unwrap()
            .display(),
        expected_output
    );
}

#[test]
fn calc_layout_reference_test_layout() {
    let xml_input = "\
    <LayoutReferenceContainer value=\"5\">\
        <LayoutReference id=\"2\" name=\"Aufgabenliste\" UUID=\"EBFC887D-CF13-4ABE-BB71-78EDC2B30FEE\"></LayoutReference>
    </LayoutReferenceContainer>
    ";

    let events = parse_events(xml_input.trim());
    let mut reader = XmlReader::new(&events);
    let element = match reader.read_event() {
        Some(e @ XmlEvent::Start { .. }) => e,
        _ => panic!("Wrong read event"),
    };

    let expected_output = Some("Layout: \"Aufgabenliste\"".to_string());
    assert_eq!(
        LayoutReferenceContainer::from_xml(&mut reader, element)
            .unwrap()
            .display(),
        expected_output
    );
}

#[test]
fn calc_layout_reference_test_by_name() {
    let xml_input = "
    <LayoutReferenceContainer value=\"3\">
        <Calculation datatype=\"1\" position=\"5\">
            <Calculation>
                <Text><![CDATA[\"LAYOUT_NAME_CALCULATION\"]]></Text>
                <ChunkList hash=\"56E1B7D90047D6C6C4421314C701E408\">
                    <Chunk type=\"NoRef\">&quot;LAYOUT_NAME_CALCULATION&quot;</Chunk>
                </ChunkList>
            </Calculation>
        </Calculation>
    </LayoutReferenceContainer>
    ";

    let events = parse_events(xml_input.trim());
    let mut reader = XmlReader::new(&events);
    let element = match reader.read_event() {
        Some(e @ XmlEvent::Start { .. }) => e,
        _ => panic!("Wrong read event"),
    };

    let expected_output = Some("Layoutname: \"LAYOUT_NAME_CALCULATION\"".to_string());
    assert_eq!(
        LayoutReferenceContainer::from_xml(&mut reader, element)
            .unwrap()
            .display(),
        expected_output
    );
}

#[test]
fn test_by_number() {
    let xml_input = "
    <LayoutReferenceContainer value=\"4\">
        <Calculation datatype=\"1\" position=\"5\">
            <Calculation>
                <Text><![CDATA[\"LAYOUT_NUMBER_CALCULATION\"]]></Text>
                <ChunkList hash=\"3C7B0A49FD772FDF6F8218753BDDDE7D\">
                    <Chunk type=\"NoRef\">&quot;LAYOUT_NUMBER_CALCULATION&quot;</Chunk>
                </ChunkList>
            </Calculation>
        </Calculation>
    </LayoutReferenceContainer>
    ";

    let events = parse_events(xml_input.trim());
    let mut reader = XmlReader::new(&events);

    let element = match reader.read_event() {
        Some(e @ XmlEvent::Start { .. }) => e,
        _ => panic!("Wrong read event"),
    };

    let expected_output = Some("Layoutnr.: \"LAYOUT_NUMBER_CALCULATION\"".to_string());
    assert_eq!(
        LayoutReferenceContainer::from_xml(&mut reader, element)
            .unwrap()
            .display(),
        expected_output
    );
}
