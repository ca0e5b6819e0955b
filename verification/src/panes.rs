pub mod list;
pub mod tool;
