//! The catalogs of a FileMaker XML export and how each is exploded.
use vstd::prelude::*;
use vstd::string::*;
use vstd::utf8::{encode_utf8, encode_utf8_decode_utf8};

use crate::text::bytes_eq;

verus! {

/// A catalog of the XML export.
#[derive(Debug, Clone, Copy, PartialEq, Eq, Hash, Structural)]
pub enum CatalogType {
    Accounts,
    BaseDirectory,
    BaseTable,
    CalcsForCustomFunctions,
    CustomFunctions,
    CustomMenu,
    CustomMenuSet,
    ExternalDataSource,
    ExtendedPrivileges,
    FieldsForTables,
    FileAccess,
    Layout,
    Library,
    OptionsForValueLists,
    PrivilegeSets,
    Relationship,
    Script,
    StepsForScripts,
    TableOccurrence,
    Theme,
    ValueList,
}

/// The catalog whose element is named `name`, if any.
pub open spec fn catalog_type_of(name: Seq<u8>) -> Option<CatalogType> {
    if name == "AccountsCatalog".spec_bytes() { Some(CatalogType::Accounts) }
    else if name == "BaseDirectoryCatalog".spec_bytes() { Some(CatalogType::BaseDirectory) }
    else if name == "BaseTableCatalog".spec_bytes() { Some(CatalogType::BaseTable) }
    else if name == "CalcsForCustomFunctions".spec_bytes() { Some(CatalogType::CalcsForCustomFunctions) }
    else if name == "CustomFunctionsCatalog".spec_bytes() { Some(CatalogType::CustomFunctions) }
    else if name == "CustomMenuCatalog".spec_bytes() { Some(CatalogType::CustomMenu) }
    else if name == "CustomMenuSetCatalog".spec_bytes() { Some(CatalogType::CustomMenuSet) }
    else if name == "ExternalDataSourceCatalog".spec_bytes() { Some(CatalogType::ExternalDataSource) }
    else if name == "ExtendedPrivilegesCatalog".spec_bytes() { Some(CatalogType::ExtendedPrivileges) }
    else if name == "FieldsForTables".spec_bytes() { Some(CatalogType::FieldsForTables) }
    else if name == "FileAccessCatalog".spec_bytes() { Some(CatalogType::FileAccess) }
    else if name == "LayoutCatalog".spec_bytes() { Some(CatalogType::Layout) }
    else if name == "LibraryCatalog".spec_bytes() { Some(CatalogType::Library) }
    else if name == "OptionsForValueLists".spec_bytes() { Some(CatalogType::OptionsForValueLists) }
    else if name == "PrivilegeSetsCatalog".spec_bytes() { Some(CatalogType::PrivilegeSets) }
    else if name == "RelationshipCatalog".spec_bytes() { Some(CatalogType::Relationship) }
    else if name == "ScriptCatalog".spec_bytes() { Some(CatalogType::Script) }
    else if name == "StepsForScripts".spec_bytes() { Some(CatalogType::StepsForScripts) }
    else if name == "TableOccurrenceCatalog".spec_bytes() { Some(CatalogType::TableOccurrence) }
    else if name == "ThemeCatalog".spec_bytes() { Some(CatalogType::Theme) }
    else if name == "ValueListCatalog".spec_bytes() { Some(CatalogType::ValueList) }
    else { None }
}

/// How the catalog `t` is exploded: the name of its items, the folder they go to, whether they
/// are wrapped in an `<ObjectList>`, whether they are arranged in folders, and the path of their id.
pub open spec fn catalog_config(t: CatalogType) -> (Seq<u8>, Seq<char>, bool, bool, Seq<char>) {
    match t {
        CatalogType::Accounts => ("Account".spec_bytes(), "accounts"@, true, false, "Account/AccountReference/@id"@),
        CatalogType::BaseDirectory => ("BaseDirectory".spec_bytes(), "base_directory"@, false, false, ""@),
        CatalogType::BaseTable => ("BaseTable".spec_bytes(), "table_stubs"@, false, false, ""@),
        CatalogType::CalcsForCustomFunctions => ("CustomFunctionCalc".spec_bytes(), "custom_function_calcs"@, true, false, "CustomFunctionCalc/CustomFunctionReference/@id"@),
        CatalogType::CustomFunctions => ("CustomFunction".spec_bytes(), "custom_function_stubs"@, true, true, ""@),
        CatalogType::CustomMenu => ("CustomMenu".spec_bytes(), "custom_menus"@, false, false, ""@),
        CatalogType::CustomMenuSet => ("CustomMenuSet".spec_bytes(), "custom_menu_sets"@, true, false, ""@),
        CatalogType::ExternalDataSource => ("ExternalDataSource".spec_bytes(), "external_data_sources"@, false, false, ""@),
        CatalogType::ExtendedPrivileges => ("ExtendedPrivilege".spec_bytes(), "extended_privileges"@, true, false, ""@),
        CatalogType::FieldsForTables => ("FieldCatalog".spec_bytes(), "tables"@, false, false, "FieldCatalog/BaseTableReference/@id"@),
        CatalogType::FileAccess => ("Authorization".spec_bytes(), "file_access"@, true, false, ""@),
        CatalogType::Layout => ("Layout".spec_bytes(), "layouts"@, false, true, "Layout/LayoutReference/@id"@),
        CatalogType::Library => ("BinaryData".spec_bytes(), "libraries"@, false, false, "BinaryData/LibraryReference/@id"@),
        CatalogType::OptionsForValueLists => ("ValueList".spec_bytes(), "value_lists"@, false, false, "ValueList/ValueListReference/@id"@),
        CatalogType::PrivilegeSets => ("PrivilegeSet".spec_bytes(), "privilege_sets"@, true, false, ""@),
        CatalogType::Relationship => ("Relationship".spec_bytes(), "relationships"@, false, false, ""@),
        CatalogType::Script => ("Script".spec_bytes(), "script_stubs"@, false, true, ""@),
        CatalogType::StepsForScripts => ("Script".spec_bytes(), "scripts"@, false, false, "Script/ScriptReference/@id"@),
        CatalogType::TableOccurrence => ("TableOccurrence".spec_bytes(), "table_occurrences"@, false, false, ""@),
        CatalogType::Theme => ("Theme".spec_bytes(), "themes"@, false, false, ""@),
        CatalogType::ValueList => ("ValueList".spec_bytes(), "value_lists"@, false, false, ""@),
    }
}

impl CatalogType {
    /// The catalog whose element is named `bytes`, if any.
    pub fn from_bytes(bytes: &[u8]) -> (res: Option<Self>)
        ensures
            res == catalog_type_of(bytes@),
    {
        if bytes_eq(bytes, "AccountsCatalog".as_bytes()) { Some(Self::Accounts) }
        else if bytes_eq(bytes, "BaseDirectoryCatalog".as_bytes()) { Some(Self::BaseDirectory) }
        else if bytes_eq(bytes, "BaseTableCatalog".as_bytes()) { Some(Self::BaseTable) }
        else if bytes_eq(bytes, "CalcsForCustomFunctions".as_bytes()) { Some(Self::CalcsForCustomFunctions) }
        else if bytes_eq(bytes, "CustomFunctionsCatalog".as_bytes()) { Some(Self::CustomFunctions) }
        else if bytes_eq(bytes, "CustomMenuCatalog".as_bytes()) { Some(Self::CustomMenu) }
        else if bytes_eq(bytes, "CustomMenuSetCatalog".as_bytes()) { Some(Self::CustomMenuSet) }
        else if bytes_eq(bytes, "ExternalDataSourceCatalog".as_bytes()) { Some(Self::ExternalDataSource) }
        else if bytes_eq(bytes, "ExtendedPrivilegesCatalog".as_bytes()) { Some(Self::ExtendedPrivileges) }
        else if bytes_eq(bytes, "FieldsForTables".as_bytes()) { Some(Self::FieldsForTables) }
        else if bytes_eq(bytes, "FileAccessCatalog".as_bytes()) { Some(Self::FileAccess) }
        else if bytes_eq(bytes, "LayoutCatalog".as_bytes()) { Some(Self::Layout) }
        else if bytes_eq(bytes, "LibraryCatalog".as_bytes()) { Some(Self::Library) }
        else if bytes_eq(bytes, "OptionsForValueLists".as_bytes()) { Some(Self::OptionsForValueLists) }
        else if bytes_eq(bytes, "PrivilegeSetsCatalog".as_bytes()) { Some(Self::PrivilegeSets) }
        else if bytes_eq(bytes, "RelationshipCatalog".as_bytes()) { Some(Self::Relationship) }
        else if bytes_eq(bytes, "ScriptCatalog".as_bytes()) { Some(Self::Script) }
        else if bytes_eq(bytes, "StepsForScripts".as_bytes()) { Some(Self::StepsForScripts) }
        else if bytes_eq(bytes, "TableOccurrenceCatalog".as_bytes()) { Some(Self::TableOccurrence) }
        else if bytes_eq(bytes, "ThemeCatalog".as_bytes()) { Some(Self::Theme) }
        else if bytes_eq(bytes, "ValueListCatalog".as_bytes()) { Some(Self::ValueList) }
        else { None }
    }

    /// How this catalog is exploded.
    pub fn get_config(&self) -> (res: CatalogConfig)
        ensures
            res.fields() == catalog_config(*self),
    {
        match self {
            Self::Accounts => CatalogConfig {
                catalog_item_name: "Account".as_bytes(),
                out_folder_name: "accounts",
                wrapped_in_object_list: true,
                uses_folders: false,
                id_path: "Account/AccountReference/@id",
            },
            Self::BaseDirectory => CatalogConfig {
                catalog_item_name: "BaseDirectory".as_bytes(),
                out_folder_name: "base_directory",
                wrapped_in_object_list: false,
                uses_folders: false,
                id_path: "",
            },
            Self::BaseTable => CatalogConfig {
                catalog_item_name: "BaseTable".as_bytes(),
                out_folder_name: "table_stubs",
                wrapped_in_object_list: false,
                uses_folders: false,
                id_path: "",
            },
            Self::CalcsForCustomFunctions => CatalogConfig {
                catalog_item_name: "CustomFunctionCalc".as_bytes(),
                out_folder_name: "custom_function_calcs",
                wrapped_in_object_list: true,
                uses_folders: false,
                id_path: "CustomFunctionCalc/CustomFunctionReference/@id",
            },
            Self::CustomFunctions => CatalogConfig {
                catalog_item_name: "CustomFunction".as_bytes(),
                out_folder_name: "custom_function_stubs",
                wrapped_in_object_list: true,
                uses_folders: true,
                id_path: "",
            },
            Self::CustomMenu => CatalogConfig {
                catalog_item_name: "CustomMenu".as_bytes(),
                out_folder_name: "custom_menus",
                wrapped_in_object_list: false,
                uses_folders: false,
                id_path: "",
            },
            Self::CustomMenuSet => CatalogConfig {
                catalog_item_name: "CustomMenuSet".as_bytes(),
                out_folder_name: "custom_menu_sets",
                wrapped_in_object_list: true,
                uses_folders: false,
                id_path: "",
            },
            Self::ExternalDataSource => CatalogConfig {
                catalog_item_name: "ExternalDataSource".as_bytes(),
                out_folder_name: "external_data_sources",
                wrapped_in_object_list: false,
                uses_folders: false,
                id_path: "",
            },
            Self::ExtendedPrivileges => CatalogConfig {
                catalog_item_name: "ExtendedPrivilege".as_bytes(),
                out_folder_name: "extended_privileges",
                wrapped_in_object_list: true,
                uses_folders: false,
                id_path: "",
            },
            Self::FieldsForTables => CatalogConfig {
                catalog_item_name: "FieldCatalog".as_bytes(),
                out_folder_name: "tables",
                wrapped_in_object_list: false,
                uses_folders: false,
                id_path: "FieldCatalog/BaseTableReference/@id",
            },
            Self::FileAccess => CatalogConfig {
                catalog_item_name: "Authorization".as_bytes(),
                out_folder_name: "file_access",
                wrapped_in_object_list: true,
                uses_folders: false,
                id_path: "",
            },
            Self::Layout => CatalogConfig {
                catalog_item_name: "Layout".as_bytes(),
                out_folder_name: "layouts",
                wrapped_in_object_list: false,
                uses_folders: true,
                id_path: "Layout/LayoutReference/@id",
            },
            Self::Library => CatalogConfig {
                catalog_item_name: "BinaryData".as_bytes(),
                out_folder_name: "libraries",
                wrapped_in_object_list: false,
                uses_folders: false,
                id_path: "BinaryData/LibraryReference/@id",
            },
            Self::OptionsForValueLists => CatalogConfig {
                catalog_item_name: "ValueList".as_bytes(),
                out_folder_name: "value_lists",
                wrapped_in_object_list: false,
                uses_folders: false,
                id_path: "ValueList/ValueListReference/@id",
            },
            Self::PrivilegeSets => CatalogConfig {
                catalog_item_name: "PrivilegeSet".as_bytes(),
                out_folder_name: "privilege_sets",
                wrapped_in_object_list: true,
                uses_folders: false,
                id_path: "",
            },
            Self::Relationship => CatalogConfig {
                catalog_item_name: "Relationship".as_bytes(),
                out_folder_name: "relationships",
                wrapped_in_object_list: false,
                uses_folders: false,
                id_path: "",
            },
            Self::Script => CatalogConfig {
                catalog_item_name: "Script".as_bytes(),
                out_folder_name: "script_stubs",
                wrapped_in_object_list: false,
                uses_folders: true,
                id_path: "",
            },
            Self::StepsForScripts => CatalogConfig {
                catalog_item_name: "Script".as_bytes(),
                out_folder_name: "scripts",
                wrapped_in_object_list: false,
                uses_folders: false,
                id_path: "Script/ScriptReference/@id",
            },
            Self::TableOccurrence => CatalogConfig {
                catalog_item_name: "TableOccurrence".as_bytes(),
                out_folder_name: "table_occurrences",
                wrapped_in_object_list: false,
                uses_folders: false,
                id_path: "",
            },
            Self::Theme => CatalogConfig {
                catalog_item_name: "Theme".as_bytes(),
                out_folder_name: "themes",
                wrapped_in_object_list: false,
                uses_folders: false,
                id_path: "",
            },
            Self::ValueList => CatalogConfig {
                catalog_item_name: "ValueList".as_bytes(),
                out_folder_name: "value_lists",
                wrapped_in_object_list: false,
                uses_folders: false,
                id_path: "",
            },
        }
    }
}

/// How a catalog is exploded.
#[derive(Debug)]
pub struct CatalogConfig {
    pub catalog_item_name: &'static [u8],
    pub out_folder_name: &'static str,
    pub wrapped_in_object_list: bool,
    pub uses_folders: bool,
    pub id_path: &'static str,
}

impl CatalogConfig {
    /// The settings, as mathematical values.
    pub open spec fn fields(&self) -> (Seq<u8>, Seq<char>, bool, bool, Seq<char>) {
        (self.catalog_item_name@, self.out_folder_name@, self.wrapped_in_object_list, self.uses_folders, self.id_path@)
    }
}

/// Which folder is the root of the output tree.
#[derive(Debug, Clone, Copy, PartialEq, Eq, Structural)]
pub enum OutputTree {
    /// The domain (the catalog's name) is the root folder.
    Domain,
    /// The database's name is the root folder.
    Db,
}

/// The options of a run.
pub struct Flags {
    pub parse_all_lines: bool,
    pub lossless: bool,
    pub output_tree: OutputTree,
}

/// The name of the element of the catalog `t` in the export.
pub open spec fn catalog_element_name(t: CatalogType) -> Seq<char> {
    match t {
        CatalogType::Accounts => "AccountsCatalog"@,
        CatalogType::BaseDirectory => "BaseDirectoryCatalog"@,
        CatalogType::BaseTable => "BaseTableCatalog"@,
        CatalogType::CalcsForCustomFunctions => "CalcsForCustomFunctions"@,
        CatalogType::CustomFunctions => "CustomFunctionsCatalog"@,
        CatalogType::CustomMenu => "CustomMenuCatalog"@,
        CatalogType::CustomMenuSet => "CustomMenuSetCatalog"@,
        CatalogType::ExternalDataSource => "ExternalDataSourceCatalog"@,
        CatalogType::ExtendedPrivileges => "ExtendedPrivilegesCatalog"@,
        CatalogType::FieldsForTables => "FieldsForTables"@,
        CatalogType::FileAccess => "FileAccessCatalog"@,
        CatalogType::Layout => "LayoutCatalog"@,
        CatalogType::Library => "LibraryCatalog"@,
        CatalogType::OptionsForValueLists => "OptionsForValueLists"@,
        CatalogType::PrivilegeSets => "PrivilegeSetsCatalog"@,
        CatalogType::Relationship => "RelationshipCatalog"@,
        CatalogType::Script => "ScriptCatalog"@,
        CatalogType::StepsForScripts => "StepsForScripts"@,
        CatalogType::TableOccurrence => "TableOccurrenceCatalog"@,
        CatalogType::Theme => "ThemeCatalog"@,
        CatalogType::ValueList => "ValueListCatalog"@,
    }
}

/// The length and the first and fifth characters of a name; they tell catalog names apart.
spec fn element_name_key(s: Seq<char>) -> (nat, char, char) {
    (s.len(), s[0], s[4])
}

/// Distinct catalogs have element names that differ in length or in their first or fifth
/// character.
proof fn lemma_element_names_differ(t1: CatalogType, t2: CatalogType)
    requires
        t1 != t2,
    ensures
        element_name_key(catalog_element_name(t1)) != element_name_key(catalog_element_name(t2)),
{
    reveal_strlit("AccountsCatalog");
    reveal_strlit("BaseDirectoryCatalog");
    reveal_strlit("BaseTableCatalog");
    reveal_strlit("CalcsForCustomFunctions");
    reveal_strlit("CustomFunctionsCatalog");
    reveal_strlit("CustomMenuCatalog");
    reveal_strlit("CustomMenuSetCatalog");
    reveal_strlit("ExternalDataSourceCatalog");
    reveal_strlit("ExtendedPrivilegesCatalog");
    reveal_strlit("FieldsForTables");
    reveal_strlit("FileAccessCatalog");
    reveal_strlit("LayoutCatalog");
    reveal_strlit("LibraryCatalog");
    reveal_strlit("OptionsForValueLists");
    reveal_strlit("PrivilegeSetsCatalog");
    reveal_strlit("RelationshipCatalog");
    reveal_strlit("ScriptCatalog");
    reveal_strlit("StepsForScripts");
    reveal_strlit("TableOccurrenceCatalog");
    reveal_strlit("ThemeCatalog");
    reveal_strlit("ValueListCatalog");
}

/// Distinct catalogs have element names with distinct encodings.
proof fn lemma_encoded_names_differ(t1: CatalogType, t2: CatalogType)
    requires
        t1 != t2,
    ensures
        encode_utf8(catalog_element_name(t1)) != encode_utf8(catalog_element_name(t2)),
{
    lemma_element_names_differ(t1, t2);
    encode_utf8_decode_utf8(catalog_element_name(t1));
    encode_utf8_decode_utf8(catalog_element_name(t2));
}

/// The lookup of a catalog by its element's name is one to one and covers every catalog: the
/// element name of `t` finds `t`, and only that name finds `t`; a name finds a catalog exactly
/// when it is the element name of one.
pub proof fn law_catalog_lookup_one_to_one(t: CatalogType, name: Seq<u8>)
    ensures
        catalog_type_of(encode_utf8(catalog_element_name(t))) == Some(t),
        catalog_type_of(name) == Some(t) ==> name == encode_utf8(catalog_element_name(t)),
        catalog_type_of(name) is Some <==> exists|u: CatalogType| name == #[trigger] encode_utf8(catalog_element_name(u)),
{
    if t != CatalogType::Accounts {
        lemma_encoded_names_differ(CatalogType::Accounts, t);
    }
    if t != CatalogType::BaseDirectory {
        lemma_encoded_names_differ(CatalogType::BaseDirectory, t);
    }
    if t != CatalogType::BaseTable {
        lemma_encoded_names_differ(CatalogType::BaseTable, t);
    }
    if t != CatalogType::CalcsForCustomFunctions {
        lemma_encoded_names_differ(CatalogType::CalcsForCustomFunctions, t);
    }
    if t != CatalogType::CustomFunctions {
        lemma_encoded_names_differ(CatalogType::CustomFunctions, t);
    }
    if t != CatalogType::CustomMenu {
        lemma_encoded_names_differ(CatalogType::CustomMenu, t);
    }
    if t != CatalogType::CustomMenuSet {
        lemma_encoded_names_differ(CatalogType::CustomMenuSet, t);
    }
    if t != CatalogType::ExternalDataSource {
        lemma_encoded_names_differ(CatalogType::ExternalDataSource, t);
    }
    if t != CatalogType::ExtendedPrivileges {
        lemma_encoded_names_differ(CatalogType::ExtendedPrivileges, t);
    }
    if t != CatalogType::FieldsForTables {
        lemma_encoded_names_differ(CatalogType::FieldsForTables, t);
    }
    if t != CatalogType::FileAccess {
        lemma_encoded_names_differ(CatalogType::FileAccess, t);
    }
    if t != CatalogType::Layout {
        lemma_encoded_names_differ(CatalogType::Layout, t);
    }
    if t != CatalogType::Library {
        lemma_encoded_names_differ(CatalogType::Library, t);
    }
    if t != CatalogType::OptionsForValueLists {
        lemma_encoded_names_differ(CatalogType::OptionsForValueLists, t);
    }
    if t != CatalogType::PrivilegeSets {
        lemma_encoded_names_differ(CatalogType::PrivilegeSets, t);
    }
    if t != CatalogType::Relationship {
        lemma_encoded_names_differ(CatalogType::Relationship, t);
    }
    if t != CatalogType::Script {
        lemma_encoded_names_differ(CatalogType::Script, t);
    }
    if t != CatalogType::StepsForScripts {
        lemma_encoded_names_differ(CatalogType::StepsForScripts, t);
    }
    if t != CatalogType::TableOccurrence {
        lemma_encoded_names_differ(CatalogType::TableOccurrence, t);
    }
    if t != CatalogType::Theme {
        lemma_encoded_names_differ(CatalogType::Theme, t);
    }
    if t != CatalogType::ValueList {
        lemma_encoded_names_differ(CatalogType::ValueList, t);
    }
    if let Some(u) = catalog_type_of(name) {
        assert(name == encode_utf8(catalog_element_name(u)));
    }
    if exists|u: CatalogType| name == #[trigger] encode_utf8(catalog_element_name(u)) {
        let u = choose|u: CatalogType| name == #[trigger] encode_utf8(catalog_element_name(u));
        lemma_element_name_finds(u);
    }
}

/// `from_bytes` is one to one: two names that find the same catalog are the same name.
pub proof fn law_from_bytes_one_to_one(a: Seq<u8>, b: Seq<u8>)
    ensures
        catalog_type_of(a) is Some && catalog_type_of(a) == catalog_type_of(b) ==> a == b,
{
    if let Some(t) = catalog_type_of(a) {
        law_catalog_lookup_one_to_one(t, a);
        law_catalog_lookup_one_to_one(t, b);
    }
}

/// `from_bytes` covers every catalog: each catalog is found by some name.
pub proof fn law_from_bytes_covers_every_catalog(t: CatalogType)
    ensures
        exists|name: Seq<u8>| catalog_type_of(name) == Some(t),
{
    law_catalog_lookup_one_to_one(t, encode_utf8(catalog_element_name(t)));
    assert(catalog_type_of(encode_utf8(catalog_element_name(t))) == Some(t));
}

/// The element name of `u` finds `u`.
proof fn lemma_element_name_finds(u: CatalogType)
    ensures
        catalog_type_of(encode_utf8(catalog_element_name(u))) == Some(u),
{
    if u != CatalogType::Accounts {
        lemma_encoded_names_differ(CatalogType::Accounts, u);
    }
    if u != CatalogType::BaseDirectory {
        lemma_encoded_names_differ(CatalogType::BaseDirectory, u);
    }
    if u != CatalogType::BaseTable {
        lemma_encoded_names_differ(CatalogType::BaseTable, u);
    }
    if u != CatalogType::CalcsForCustomFunctions {
        lemma_encoded_names_differ(CatalogType::CalcsForCustomFunctions, u);
    }
    if u != CatalogType::CustomFunctions {
        lemma_encoded_names_differ(CatalogType::CustomFunctions, u);
    }
    if u != CatalogType::CustomMenu {
        lemma_encoded_names_differ(CatalogType::CustomMenu, u);
    }
    if u != CatalogType::CustomMenuSet {
        lemma_encoded_names_differ(CatalogType::CustomMenuSet, u);
    }
    if u != CatalogType::ExternalDataSource {
        lemma_encoded_names_differ(CatalogType::ExternalDataSource, u);
    }
    if u != CatalogType::ExtendedPrivileges {
        lemma_encoded_names_differ(CatalogType::ExtendedPrivileges, u);
    }
    if u != CatalogType::FieldsForTables {
        lemma_encoded_names_differ(CatalogType::FieldsForTables, u);
    }
    if u != CatalogType::FileAccess {
        lemma_encoded_names_differ(CatalogType::FileAccess, u);
    }
    if u != CatalogType::Layout {
        lemma_encoded_names_differ(CatalogType::Layout, u);
    }
    if u != CatalogType::Library {
        lemma_encoded_names_differ(CatalogType::Library, u);
    }
    if u != CatalogType::OptionsForValueLists {
        lemma_encoded_names_differ(CatalogType::OptionsForValueLists, u);
    }
    if u != CatalogType::PrivilegeSets {
        lemma_encoded_names_differ(CatalogType::PrivilegeSets, u);
    }
    if u != CatalogType::Relationship {
        lemma_encoded_names_differ(CatalogType::Relationship, u);
    }
    if u != CatalogType::Script {
        lemma_encoded_names_differ(CatalogType::Script, u);
    }
    if u != CatalogType::StepsForScripts {
        lemma_encoded_names_differ(CatalogType::StepsForScripts, u);
    }
    if u != CatalogType::TableOccurrence {
        lemma_encoded_names_differ(CatalogType::TableOccurrence, u);
    }
    if u != CatalogType::Theme {
        lemma_encoded_names_differ(CatalogType::Theme, u);
    }
    if u != CatalogType::ValueList {
        lemma_encoded_names_differ(CatalogType::ValueList, u);
    }
}

/// The output folder of a catalog.
pub open spec fn out_folder(t: CatalogType) -> Seq<char> {
    catalog_config(t).1
}

/// The length and the second and next to last characters of a folder name; they tell the
/// output folders apart.
spec fn folder_key(s: Seq<char>) -> (nat, char, char) {
    (s.len(), s[1], s[s.len() - 2])
}

/// Distinct catalogs write to distinct output folders, but for the two kinds of value list,
/// which share one.
pub proof fn law_output_folders_distinct(t1: CatalogType, t2: CatalogType)
    requires
        t1 != t2,
        !(t1 == CatalogType::OptionsForValueLists && t2 == CatalogType::ValueList),
        !(t1 == CatalogType::ValueList && t2 == CatalogType::OptionsForValueLists),
    ensures
        out_folder(t1) != out_folder(t2),
{
    reveal_strlit("accounts");
    reveal_strlit("base_directory");
    reveal_strlit("table_stubs");
    reveal_strlit("custom_function_calcs");
    reveal_strlit("custom_function_stubs");
    reveal_strlit("custom_menus");
    reveal_strlit("custom_menu_sets");
    reveal_strlit("external_data_sources");
    reveal_strlit("extended_privileges");
    reveal_strlit("tables");
    reveal_strlit("file_access");
    reveal_strlit("layouts");
    reveal_strlit("libraries");
    reveal_strlit("value_lists");
    reveal_strlit("privilege_sets");
    reveal_strlit("relationships");
    reveal_strlit("script_stubs");
    reveal_strlit("scripts");
    reveal_strlit("table_occurrences");
    reveal_strlit("themes");
    assert(folder_key(out_folder(t1)) != folder_key(out_folder(t2)));
}

} // verus!
