pub mod calculation;
pub mod layout_reference;
