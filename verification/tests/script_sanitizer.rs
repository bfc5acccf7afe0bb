use fm_xml_explode::config::{Flags, OutputTree};
use fm_xml_explode::script_sanitizer::{parse_script_xml, parse_script_xml_checked, push_step_lines, step_indentation};
use fm_xml_explode::script_steps::constants::ScriptStep;

fn flags() -> Flags {
    Flags { parse_all_lines: false, lossless: false, output_tree: OutputTree::Db }
}

#[test]
fn script_with_block_is_indented() {
    let xml = r#"<Script>
    <ScriptReference id="7" name="Demo"></ScriptReference>
    <StepList>
        <Step id="68" name="If" enable="True"><ParameterValues><Parameter type="Calculation"><Calculation><Calculation><Text><![CDATA[$x]]></Text></Calculation></Calculation></Parameter></ParameterValues></Step>
        <Step id="89" name="Comment" enable="True"><ParameterValues><Parameter type="Comment"><Comment value="a&#13;b"></Comment></Parameter></ParameterValues></Step>
        <Step id="70" name="End If" enable="True"></Step>
    </StepList>
</Script>"#;
    let info = parse_script_xml(xml, &flags()).unwrap();
    assert_eq!(info.id, "7");
    assert_eq!(info.name, "Demo");
    assert_eq!(info.text, "If [ $x ]\n\t# a\n\t  b\nEnd If\n");
}

#[test]
fn disabled_block_start_does_not_indent() {
    let xml = r#"<Script><ScriptReference id="1" name="S"></ScriptReference><L><Step id="71" name="Loop" enable="False"></Step><Step id="79" name="Freeze Window" enable="True"></Step></L></Script>"#;
    let info = parse_script_xml(xml, &flags()).unwrap();
    assert_eq!(info.text, "Loop\nFreeze Window\n");
}

#[test]
fn script_without_reference_has_no_info() {
    let xml = r#"<Script><L><Step id="79" name="Freeze Window" enable="True"></Step></L></Script>"#;
    assert!(parse_script_xml(xml, &flags()).is_none());
}

#[test]
fn step_without_id_is_refused() {
    let xml = r#"<Script><ScriptReference id="1" name="S"></ScriptReference><L><Step name="X"></Step></L></Script>"#;
    assert!(parse_script_xml_checked(xml, &flags()).is_none());
}

#[test]
fn end_if_at_top_level_is_refused() {
    let xml = r#"<Script><ScriptReference id="1" name="S"></ScriptReference><L><Step id="70" name="End If" enable="True"></Step></L></Script>"#;
    assert!(parse_script_xml_checked(xml, &flags()).is_none());
}

#[test]
fn indentation_of_blocks() {
    assert_eq!(step_indentation(0, ScriptStep::IfStart, true), Some((0, 1)));
    assert_eq!(step_indentation(1, ScriptStep::Else, true), Some((0, 1)));
    assert_eq!(step_indentation(1, ScriptStep::IfEnd, true), Some((0, 0)));
    assert_eq!(step_indentation(2, ScriptStep::LoopEnd, false), Some((2, 2)));
    assert_eq!(step_indentation(0, ScriptStep::LoopEnd, true), None);
}

#[test]
fn continuation_lines_are_indented_further() {
    let mut out = String::new();
    push_step_lines(&mut out, "Set Variable [ $a ;\rValue: 1 ]", 1, false);
    assert_eq!(out, "\tSet Variable [ $a ;\n\t\t\t\t\tValue: 1 ]\n");
}
