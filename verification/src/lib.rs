//! Explodes FileMaker "Save a Copy as XML" exports and turns script steps into
//! readable text. The XML is tokenized by `quick_xml`; everything that is decided
//! on the resulting events is verified.

pub mod base_table_catalog;
pub mod calculations;
pub mod catalog;
pub mod config;
pub mod custom_function_catalog;
pub mod custom_function_sanitizer;
pub mod external_data_source_catalog;
pub mod layout_catalog;
pub mod output;
pub mod privilege_sets_catalog;
pub mod relationship_catalog;
pub mod script_catalog;
pub mod script_sanitizer;
pub mod script_steps;
pub mod text;
pub mod xml;
