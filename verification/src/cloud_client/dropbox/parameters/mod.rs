pub mod delete;
pub mod download;
pub mod list_folder;
pub mod upload;
