pub mod json;
pub mod strings;
