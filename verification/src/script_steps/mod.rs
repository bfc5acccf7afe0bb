pub mod accounts;
pub mod close_window;
pub mod comment;
pub mod commit;
pub mod constants;
pub mod exit_script;
pub mod if_start;
pub mod insert_text;
pub mod is_enabled;
pub mod new_window;
pub mod omit_multiple_records;
pub mod parameters;
pub mod perform_find;
pub mod perform_script;
pub mod go_to_field;
pub mod go_to_layout;
pub mod go_to_object;
pub mod go_to_record;
pub mod go_to_portal_row;
pub mod primitive;
pub mod primitive_with_boolean;
pub mod primitive_with_booleans;
pub mod refresh_object;
pub mod replace_field_contents;
pub mod sanitize;
pub mod step_scan;
