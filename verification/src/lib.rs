pub mod text;
pub mod calendar;
pub mod html;
pub mod model;
pub mod content;
pub mod bindings;
pub mod query;
pub mod selector;
pub mod builder;
pub mod models;
pub mod builders;
pub mod resources;
