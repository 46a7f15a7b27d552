pub mod repositories;
pub mod settings;
