pub mod scroll;
pub mod select;
