pub mod animation;
pub mod boolean;
pub mod calculation;
pub mod comment;
pub mod constants;
pub mod data_source_reference;
pub mod privilege_set_reference;
pub mod script_reference;
pub mod style;
pub mod text;
pub mod field_reference;
pub mod variable_reference;
pub mod boolean_container;
pub mod list;
pub mod layout_reference;
pub mod select;
pub mod target;
pub mod related;
pub mod button;
pub mod dialog_field;
pub mod window_reference;
pub mod parameter_values;
