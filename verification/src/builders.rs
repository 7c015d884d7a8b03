pub mod index;
pub mod show;
