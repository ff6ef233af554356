pub mod celestia_search_tool;
pub mod digits;
pub mod json;
