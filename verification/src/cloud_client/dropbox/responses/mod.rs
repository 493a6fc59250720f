pub mod list_folder;
