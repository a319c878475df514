//! Settings persistence for a desktop mascot: the settings record, its JSON
//! document form, and what each store operation returns given what the file
//! system reported.

pub mod greeting;
pub mod json;
pub mod settings;
pub mod store;
