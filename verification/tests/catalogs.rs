use fm_xml_explode::base_table_catalog::parse_base_table_catalog;
use fm_xml_explode::catalog::{xml_explode_catalog, xml_explode_catalog_checked, CatalogAction, CatalogError};
use fm_xml_explode::config::CatalogType;
use fm_xml_explode::catalog::{item_path_value, split_id_path};
use fm_xml_explode::xml::local_name;
use fm_xml_explode::layout_catalog::xml_explode_layout_catalog;
use fm_xml_explode::output::{closing_tag_of, escape_name, event_to_xml, events_to_xml, file_label, relationship_file_name};
use fm_xml_explode::relationship_catalog::RelationshipInfo;
use fm_xml_explode::catalog::{
    add_start_tag_to_skeleton, determine_subfolder_path, handle_ancillary_element, parse_folder_attributes,
    parse_folder_attributes_checked, update_current_path, update_folder_structure, FolderStructure, SkeletonLine,
    XmlEventType,
};
use fm_xml_explode::custom_function_catalog::xml_explode_custom_function_catalog;
use fm_xml_explode::external_data_source_catalog::xml_extract_external_data_sources;
use fm_xml_explode::privilege_sets_catalog::{xml_explode_privilege_set_catalog, PrivilegeSet};
use fm_xml_explode::relationship_catalog::{xml_explode_relationship_catalog, relationship_label};
use fm_xml_explode::script_catalog::parse_script_directories;
use fm_xml_explode::xml::{parse_events, XmlEvent, XmlReader};

/// Reads past the first event (the catalog's start tag) and hands back the reader.
fn after_start(events: &Vec<XmlEvent>) -> XmlReader<'_> {
    let mut reader = XmlReader::new(events);
    reader.read_event();
    reader
}

fn attrs(pairs: &[(&str, &str)]) -> Vec<(String, String)> {
    pairs.iter().map(|(k, v)| (k.to_string(), v.to_string())).collect()
}

#[test]
fn privilege_sets_keep_their_events() {
    let xml = r#"<PrivilegeSetsCatalog><PrivilegeSets><UUID>x</UUID><PrivilegeSet id="1" name="Full"><Records value="all"></Records></PrivilegeSet><PrivilegeSet name="No id"></PrivilegeSet></PrivilegeSets></PrivilegeSetsCatalog>"#;
    let events = parse_events(xml);
    let mut reader = after_start(&events);
    let sets = xml_explode_privilege_set_catalog(&mut reader, &events[0]);
    assert_eq!(sets.len(), 1);
    assert_eq!(sets[0].id, "1");
    assert_eq!(sets[0].name, "Full");
    assert_eq!(sets[0].content.len(), 4);
    assert!(matches!(&sets[0].content[0], XmlEvent::Start { name, .. } if name == "PrivilegeSet"));
    assert!(matches!(&sets[0].content[3], XmlEvent::End { name } if name == "PrivilegeSet"));
    assert_eq!(reader.pos, events.len());
}

#[test]
fn privilege_set_clear_forgets_everything() {
    let mut set = PrivilegeSet { id: "1".to_string(), name: "n".to_string(), content: vec![XmlEvent::Other] };
    set.clear();
    assert!(set.id.is_empty() && set.name.is_empty() && set.content.is_empty());
    let fresh = PrivilegeSet::default();
    assert!(fresh.id.is_empty() && fresh.content.is_empty());
}

#[test]
fn skeleton_takes_children_in_lossless_mode() {
    let mut skeleton: Vec<SkeletonLine> = Vec::new();
    add_start_tag_to_skeleton(&mut skeleton, false, "<UUID>", 4, 2, false);
    assert!(skeleton.is_empty());
    add_start_tag_to_skeleton(&mut skeleton, true, "<UUID>", 4, 2, false);
    assert_eq!(skeleton.len(), 1);
    assert!(skeleton[0].is_child);
    assert_eq!(skeleton[0].kind, XmlEventType::Start);
    assert_eq!(skeleton[0].text, "<UUID>");
    add_start_tag_to_skeleton(&mut skeleton, true, "<Account>", 4, 3, false);
    assert_eq!(skeleton.len(), 1);
    add_start_tag_to_skeleton(&mut skeleton, true, "<Account>", 4, 3, true);
    assert_eq!(skeleton.len(), 2);
    assert!(skeleton[1].is_child);
    assert_eq!(skeleton[1].rel_depth, 3);
}

#[test]
fn ancillary_element_is_kept_only_in_lossless_mode() {
    let xml = "<Catalog><UUID><Id>7</Id></UUID><Item></Item></Catalog>";
    let events = parse_events(xml);
    let mut reader = XmlReader::new(&events);
    reader.read_event();
    reader.read_event();
    let rest = handle_ancillary_element(&mut reader, true);
    assert_eq!(rest.len(), 4);
    assert_eq!(reader.pos, 6);
    let mut reader = XmlReader::new(&events);
    reader.read_event();
    reader.read_event();
    let rest = handle_ancillary_element(&mut reader, false);
    assert!(rest.is_empty());
    assert_eq!(reader.pos, 6);
}

#[test]
fn folder_attributes_are_read() {
    let f = parse_folder_attributes(&attrs(&[("id", "3"), ("name", "A &amp; B"), ("isFolder", "True")]));
    assert_eq!(f.id, "3");
    assert_eq!(f.name, "A & B");
    assert!(f.is_folder && !f.is_marker && !f.is_separator);
    let m = parse_folder_attributes(&attrs(&[("isFolder", "Marker"), ("isSeparatorItem", "True")]));
    assert!(!m.is_folder && m.is_marker && m.is_separator);
    assert!(parse_folder_attributes_checked(&attrs(&[("name", "bad &nope; name")])).is_none());
}

#[test]
fn folder_and_marker_restore_the_path() {
    let mut path = vec!["top".to_string()];
    update_current_path(&mut path, "inner".to_string(), true, false);
    assert_eq!(path, vec!["top".to_string(), "inner".to_string()]);
    update_current_path(&mut path, String::new(), false, false);
    assert_eq!(path.len(), 2);
    update_current_path(&mut path, String::new(), false, true);
    assert_eq!(path, vec!["top".to_string()]);
    let mut empty: Vec<String> = Vec::new();
    update_current_path(&mut empty, String::new(), false, true);
    assert!(empty.is_empty());
}

#[test]
fn folder_structure_gives_back_what_was_stored() {
    let mut fs = FolderStructure::new();
    fs.insert("1".to_string(), vec!["a".to_string()]);
    fs.insert("2".to_string(), vec!["b".to_string(), "c".to_string()]);
    fs.insert("1".to_string(), vec!["d".to_string()]);
    assert_eq!(fs.len(), 2);
    assert_eq!(fs.get_path_for_id("1"), vec!["d".to_string()]);
    assert_eq!(fs.get_path_for_id("2"), vec!["b".to_string(), "c".to_string()]);
    assert!(fs.get_path_for_id("9").is_empty());

    let mut result = Some(FolderStructure::new());
    update_folder_structure(&mut result, "5", &vec!["x".to_string()]);
    assert_eq!(result.as_ref().unwrap().get_path_for_id("5"), vec!["x".to_string()]);
    let mut none: Option<FolderStructure> = None;
    update_folder_structure(&mut none, "5", &vec!["x".to_string()]);
    assert!(none.is_none());
}

#[test]
fn subfolder_paths() {
    let path = vec!["a".to_string(), "b".to_string()];
    assert_eq!(determine_subfolder_path(None, None, "", true, &path), Some("a/b".to_string()));
    assert_eq!(determine_subfolder_path(None, None, "", false, &path), None);
    assert_eq!(determine_subfolder_path(None, None, "", true, &Vec::new()), None);
    let mut fs = FolderStructure::new();
    fs.insert("7".to_string(), vec!["x".to_string(), "y".to_string()]);
    assert_eq!(determine_subfolder_path(Some(&fs), Some("7"), "/Step/@id", true, &path), Some("x/y".to_string()));
    assert_eq!(determine_subfolder_path(Some(&fs), Some("8"), "/Step/@id", true, &path), None);
    assert_eq!(determine_subfolder_path(Some(&fs), Some("7"), "", true, &path), None);
    assert_eq!(determine_subfolder_path(Some(&fs), None, "/Step/@id", true, &path), None);
}

#[test]
fn base_tables_by_name() {
    let xml = r#"<BaseTableCatalog><BaseTable id="1" name="People"></BaseTable><UUID></UUID><BaseTable id="2" name="Orders"><BaseTable id="9" name="Deep"></BaseTable></BaseTable><BaseTable id="3" name="People"></BaseTable></BaseTableCatalog><After></After>"#;
    let events = parse_events(xml);
    let mut reader = after_start(&events);
    let tables = parse_base_table_catalog(&mut reader, &events[0]);
    assert_eq!(tables.len(), 2);
    assert!(tables.contains(&("People".to_string(), "3".to_string())));
    assert!(tables.contains(&("Orders".to_string(), "2".to_string())));
    assert_eq!(reader.pos, events.len() - 2);
}

#[test]
fn script_directories() {
    let xml = r#"<ScriptCatalog><Script id="1" name="Tools" isFolder="True"></Script><Script id="2" name="Run"></Script><Script id="3" name="" isFolder="Marker"></Script><Script id="4" name="Top"></Script><Script id="5" isSeparatorItem="True"></Script></ScriptCatalog>"#;
    let events = parse_events(xml);
    let mut reader = after_start(&events);
    let dirs = parse_script_directories(&mut reader, &events[0]);
    assert_eq!(dirs.len(), 2);
    assert_eq!(dirs[0].0, "2");
    assert_eq!(dirs[0].1, vec![("1".to_string(), "Tools".to_string())]);
    assert_eq!(dirs[1].0, "4");
    assert!(dirs[1].1.is_empty());
}

#[test]
fn external_data_sources_are_kept_whole() {
    let xml = r#"<ExternalDataSourceCatalog><ExternalDataSource name="x"><![CDATA[y]]></ExternalDataSource></ExternalDataSourceCatalog>"#;
    let events = parse_events(xml);
    let mut reader = after_start(&events);
    let content = xml_extract_external_data_sources(&mut reader, &events[0]).unwrap();
    assert_eq!(content.len(), 5);
    let unfinished = parse_events("<ExternalDataSourceCatalog><ExternalDataSource>");
    let mut reader = after_start(&unfinished);
    assert!(xml_extract_external_data_sources(&mut reader, &unfinished[0]).is_none());
}

#[test]
fn relationships_and_their_labels() {
    let xml = r#"<RelationshipCatalog><UUID><X></X></UUID><Relationship id="4"><LeftTable name="A"><TableOccurrenceReference name="People"></TableOccurrenceReference></LeftTable><RightTable name="B"></RightTable></Relationship></RelationshipCatalog>"#;
    let events = parse_events(xml);
    let mut reader = after_start(&events);
    let items = xml_explode_relationship_catalog(&mut reader, &events[0]).unwrap();
    assert_eq!(items.len(), 1);
    assert_eq!(items[0].id, "4");
    assert_eq!(items[0].left, "People");
    assert_eq!(items[0].right, "B");
    assert_eq!(relationship_label(&items[0]), "[People] - [B]");
    assert_eq!(items[0].content.len(), 8);
    assert!(matches!(&items[0].content[0], XmlEvent::Start { name, .. } if name == "Relationship"));
    assert!(matches!(&items[0].content[7], XmlEvent::End { name } if name == "Relationship"));
    assert_eq!(
        events_to_xml(&items[0].content, 0, 8),
        r#"<Relationship id="4"><LeftTable name="A"><TableOccurrenceReference name="People"></TableOccurrenceReference></LeftTable><RightTable name="B"></RightTable></Relationship>"#
    );
    assert_eq!(relationship_file_name(&items[0]), "4 - [People] - [B]");
    let missing_id = parse_events("<RelationshipCatalog><Relationship></Relationship></RelationshipCatalog>");
    let mut reader = after_start(&missing_id);
    assert!(xml_explode_relationship_catalog(&mut reader, &missing_id[0]).is_none());
}

#[test]
fn custom_function_catalog_items() {
    let xml = r#"<CustomFunctionsCatalog><ObjectList><CustomFunctionCalc><CustomFunctionReference id="8" name="Twice"></CustomFunctionReference><Calculation><Text><![CDATA[x * 2]]></Text></Calculation></CustomFunctionCalc></ObjectList></CustomFunctionsCatalog>"#;
    let events = parse_events(xml);
    let mut reader = after_start(&events);
    let items = xml_explode_custom_function_catalog(&mut reader, &events[0]);
    assert_eq!(items.len(), 1);
    assert_eq!(items[0].id, "8");
    assert_eq!(items[0].name, "Twice");
    assert_eq!(items[0].content, "x * 2");
}

#[test]
fn catalog_walk_plans_items_and_folders() {
    let xml = r#"<CustomFunctionsCatalog><UUID>u</UUID><ObjectList><CustomFunction id="1" name="Tools" isFolder="True"></CustomFunction><CustomFunction id="2" name="Twice"><Calc>x</Calc></CustomFunction><CustomFunction id="3" isFolder="Marker"></CustomFunction><CustomFunction id="4" name="Top"></CustomFunction></ObjectList></CustomFunctionsCatalog>"#;
    let events = parse_events(xml);
    let mut reader = after_start(&events);
    let plan = xml_explode_catalog(&mut reader, Some(CatalogType::CustomFunctions), false).unwrap();
    assert_eq!(reader.pos, events.len());
    let items: Vec<&CatalogAction> = plan.actions.iter().filter(|a| matches!(a, CatalogAction::Item { .. })).collect();
    assert_eq!(items.len(), 2);
    match items[0] {
        CatalogAction::Item { id, folders, start, end } => {
            assert_eq!(id, "2");
            assert_eq!(folders, &vec![("1".to_string(), "Tools".to_string())]);
            assert!(matches!(&events[*start], XmlEvent::Start { name, .. } if name == "CustomFunction"));
            assert!(matches!(&events[*end - 1], XmlEvent::End { name } if name == "CustomFunction"));
        }
        _ => unreachable!(),
    }
    assert_eq!(plan.actions.len(), 2);
    let folders = plan.folder_items.unwrap();
    assert_eq!(folders.len(), 2);
    assert!(folders.contains(&("4".to_string(), Vec::new())));
}

#[test]
fn catalog_walk_in_lossless_mode_keeps_skeleton() {
    let xml = r#"<BaseTableCatalog><UUID>u</UUID><BaseTable id="1" name="T"></BaseTable></BaseTableCatalog>"#;
    let events = parse_events(xml);
    let mut reader = after_start(&events);
    let plan = xml_explode_catalog(&mut reader, Some(CatalogType::BaseTable), true).unwrap();
    assert!(plan.folder_items.is_none());
    assert!(matches!(plan.actions[0], CatalogAction::Skeleton { rel_depth: 2, is_child: true, kind: XmlEventType::Start, event: 1 }));
    assert!(matches!(plan.actions[1], CatalogAction::Ancillary { start: 2, end: 4 }));
    assert!(matches!(plan.actions[2], CatalogAction::Skeleton { rel_depth: 2, kind: XmlEventType::Start, event: 4, .. }));
    assert!(matches!(plan.actions[3], CatalogAction::Item { start: 4, end: 6, .. }));
    assert!(matches!(plan.actions[4], CatalogAction::Skeleton { rel_depth: 1, kind: XmlEventType::End, event: 4, .. }));
    assert!(matches!(plan.actions[5], CatalogAction::Skeleton { rel_depth: 0, kind: XmlEventType::End, event: 6, .. }));
    assert_eq!(plan.actions.len(), 6);
}

#[test]
fn catalog_walk_needs_a_type() {
    let events = parse_events("<ScriptCatalog></ScriptCatalog>");
    let mut reader = after_start(&events);
    assert!(matches!(xml_explode_catalog(&mut reader, None, false), Err(CatalogError::TypeNotSpecified)));
    let bad = parse_events(r#"<ScriptCatalog><Script id="1" name="a &bad; b"></Script></ScriptCatalog>"#);
    let mut reader = after_start(&bad);
    assert!(matches!(xml_explode_catalog_checked(&mut reader, Some(CatalogType::Script), false), Ok(None)));
    assert_eq!(reader.pos, 1);
}

#[test]
fn layouts_with_folders() {
    let xml = r#"<LayoutCatalog><Layout id="1" name="Group" isFolder="True"></Layout><Layout id="2" name="Main"><Part></Part></Layout><Layout id="3" isFolder="Marker"></Layout><Layout id="4" name="Last"></Layout><UUID>x</UUID></LayoutCatalog>"#;
    let events = parse_events(xml);
    let mut reader = after_start(&events);
    let layouts = xml_explode_layout_catalog(&mut reader, &events[0]);
    assert_eq!(reader.pos, events.len());
    assert_eq!(layouts.len(), 2);
    assert_eq!(layouts[0].id, "2");
    assert_eq!(layouts[0].name, "Main");
    assert_eq!(layouts[0].path, vec![("1".to_string(), "Group".to_string())]);
    assert_eq!(layouts[0].content.len(), 4);
    assert_eq!(layouts[1].id, "4");
    assert!(layouts[1].path.is_empty());
}

#[test]
fn comments_are_kept_in_privilege_sets() {
    let xml = r#"<PrivilegeSetsCatalog><PrivilegeSets><PrivilegeSet id="2" name="Read"><!-- note --></PrivilegeSet></PrivilegeSets></PrivilegeSetsCatalog>"#;
    let events = parse_events(xml);
    let mut reader = after_start(&events);
    let sets = xml_explode_privilege_set_catalog(&mut reader, &events[0]);
    assert_eq!(sets.len(), 1);
    assert_eq!(sets[0].content.len(), 3);
    assert!(matches!(&sets[0].content[1], XmlEvent::Comment { content } if content == " note "));
}

#[test]
fn relationship_file_names_replace_dots() {
    let r = RelationshipInfo { id: "7".to_string(), left: "a.b".to_string(), right: "c/d".to_string(), content: Vec::new() };
    assert_eq!(relationship_file_name(&r), "7 - [a_b] - [c_d]");
}

#[test]
fn events_are_written_back_as_xml() {
    let events = parse_events(r#"<A x="1" y="&amp;"><!--c--><![CDATA[d]]>t</A>"#);
    assert_eq!(event_to_xml(&events[0]), r#"<A x="1" y="&amp;">"#);
    assert_eq!(closing_tag_of(&events[0]), "</A>");
    assert_eq!(events_to_xml(&events, 1, events.len()), "<!--c--><![CDATA[d]]>t</A>");
    assert_eq!(escape_name("a/b:c*d?e|"), "a_b_c_d_e_");
    assert_eq!(file_label("3", "x|y"), "3 - x_y");
}

#[test]
fn catalog_names_and_folders_are_one_to_one() {
    let names = [
        "AccountsCatalog", "BaseDirectoryCatalog", "BaseTableCatalog", "CalcsForCustomFunctions", "CustomFunctionsCatalog",
        "CustomMenuCatalog", "CustomMenuSetCatalog", "ExternalDataSourceCatalog", "ExtendedPrivilegesCatalog", "FieldsForTables",
        "FileAccessCatalog", "LayoutCatalog", "LibraryCatalog", "OptionsForValueLists", "PrivilegeSetsCatalog",
        "RelationshipCatalog", "ScriptCatalog", "StepsForScripts", "TableOccurrenceCatalog", "ThemeCatalog", "ValueListCatalog",
    ];
    let types: Vec<CatalogType> = names.iter().map(|n| CatalogType::from_bytes(n.as_bytes()).unwrap()).collect();
    for i in 0..types.len() {
        for j in 0..types.len() {
            assert_eq!(types[i] == types[j], i == j);
            let same_folder = types[i].get_config().out_folder_name == types[j].get_config().out_folder_name;
            let value_lists = names[i].contains("ValueList") && names[j].contains("ValueList");
            assert_eq!(same_folder, i == j || value_lists);
        }
    }
    assert!(CatalogType::from_bytes("scriptcatalog".as_bytes()).is_none());
    assert!(CatalogType::from_bytes("ScriptCatalog ".as_bytes()).is_none());
}

#[test]
fn local_names_drop_the_prefix() {
    assert_eq!(local_name("fm:Relationship"), "Relationship");
    assert_eq!(local_name("Relationship"), "Relationship");
    assert_eq!(local_name("a:b:c"), "b:c");
    let xml = r#"<RelationshipCatalog><fm:Relationship id="4"><LeftTable name="A"></LeftTable><RightTable name="B"></RightTable></fm:Relationship></RelationshipCatalog>"#;
    let events = parse_events(xml);
    let mut reader = after_start(&events);
    let items = xml_explode_relationship_catalog(&mut reader, &events[0]).unwrap();
    assert_eq!(items.len(), 1);
    assert_eq!(items[0].id, "");
    assert_eq!(items[0].left, "A");
    assert_eq!(items[0].content.len(), 6);
}

#[test]
fn item_ids_are_read_at_their_path() {
    assert_eq!(split_id_path("Script/ScriptReference/@id"), Some(("Script".to_string(), "ScriptReference".to_string(), "id".to_string())));
    assert_eq!(split_id_path(""), None);
    assert_eq!(split_id_path("Script/ScriptReference/id"), None);
    let events = parse_events(r#"<Script><Inner><ScriptReference id="9"></ScriptReference></Inner><ScriptReference id="3" name="x"></ScriptReference></Script>"#);
    assert_eq!(item_path_value(&events, 0, "Script/ScriptReference/@id"), Some("3".to_string()));
    assert_eq!(item_path_value(&events, 0, "Layout/ScriptReference/@id"), None);
    assert_eq!(item_path_value(&events, 0, "Script/ScriptReference/@missing"), None);
}
