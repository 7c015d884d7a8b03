pub mod common;
pub mod default_resource;
pub mod show_resource;
pub mod web_resource;
