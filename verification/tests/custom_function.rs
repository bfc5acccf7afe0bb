use fm_xml_explode::custom_function_sanitizer::parse_cf_xml;

#[test]
fn custom_function_formula() {
    let xml = r#"<CustomFunction id="12" name="Double"><Calculation><Text><![CDATA[x * 2]]></Text></Calculation></CustomFunction>"#;
    let info = parse_cf_xml(xml).unwrap();
    assert_eq!(info.id, "12");
    assert_eq!(info.text, "x * 2");
}

#[test]
fn reference_gives_id_before_definition() {
    let xml = r#"<CustomFunctionCalc><CustomFunctionReference id="5" name="F"></CustomFunctionReference><Calculation><Text><![CDATA[1]]></Text></Calculation></CustomFunctionCalc>"#;
    let info = parse_cf_xml(xml).unwrap();
    assert_eq!(info.id, "5");
    assert_eq!(info.text, "1");
}

#[test]
fn custom_function_without_id() {
    let xml = r#"<CustomFunction name="F"><Calculation><Text><![CDATA[1]]></Text></Calculation></CustomFunction>"#;
    assert!(parse_cf_xml(xml).is_none());
}
