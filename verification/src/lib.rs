pub mod layout;
pub mod registry;
