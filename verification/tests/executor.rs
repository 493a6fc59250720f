use cloud_storage_utilizer::app::{App, InMemoryDir, WorkspaceData};
use cloud_storage_utilizer::cloud_client::memory::InMemoryClient;
use cloud_storage_utilizer::cloud_client::CloudClient;
use cloud_storage_utilizer::errors::AppError;
use cloud_storage_utilizer::tui::WorkMode;

fn fresh_app(client: InMemoryClient, local: Vec<&str>) -> App<InMemoryClient, InMemoryDir> {
    let entries: Vec<String> = local.into_iter().map(String::from).collect();
    App::new(client, InMemoryDir::new(entries), String::from("/home"))
}

#[test]
fn upload_then_download_round_trips_bytes() {
    let mut client = InMemoryClient::new();
    client.put_local(String::from("/local/src.bin"), vec![0u8, 1, 2, 250, 255]);
    client
        .upload(&String::from("/local/src.bin"), &String::from("/remote/p"))
        .unwrap();
    client
        .download(&String::from("/remote/p"), &String::from("/local/out.bin"))
        .unwrap();
    let out = client.get_local(&String::from("/local/out.bin")).unwrap();
    assert_eq!(out, &vec![0u8, 1, 2, 250, 255]);
}

#[test]
fn download_of_an_absent_remote_path_fails() {
    let mut client = InMemoryClient::new();
    let r = client.download(&String::from("/remote/none"), &String::from("/local/x"));
    assert!(matches!(r, Err(AppError::Request(_))));
}

#[test]
fn upload_of_an_absent_local_path_fails() {
    let mut client = InMemoryClient::new();
    let r = client.upload(&String::from("/local/none"), &String::from("/remote/x"));
    assert!(matches!(r, Err(AppError::Io(_))));
}

#[test]
fn delete_removes_the_name_from_the_parent_listing() {
    let mut client = InMemoryClient::new();
    client.put_cloud(String::from("/dir/a.txt"), vec![1u8]);
    client.put_cloud(String::from("/dir/b.txt"), vec![2u8]);
    let before = client.list_entries(&String::from("/dir")).unwrap();
    assert!(before.contains(&String::from("a.txt")));
    client.delete(&String::from("/dir/a.txt")).unwrap();
    let after = client.list_entries(&String::from("/dir")).unwrap();
    assert!(!after.contains(&String::from("a.txt")));
    assert!(after.contains(&String::from("b.txt")));
}

#[test]
fn listing_shows_only_direct_children() {
    let mut client = InMemoryClient::new();
    client.put_cloud(String::from("/dir/a.txt"), vec![1u8]);
    client.put_cloud(String::from("/dir/sub/deep.txt"), vec![2u8]);
    client.put_cloud(String::from("/other/c.txt"), vec![3u8]);
    let mut names = client.list_entries(&String::from("/dir")).unwrap();
    names.sort();
    assert_eq!(names, vec![String::from("a.txt")]);
}

#[test]
fn deleting_an_absent_path_fails() {
    let mut client = InMemoryClient::new();
    let r = client.delete(&String::from("/nothing"));
    assert!(matches!(r, Err(AppError::Request(_))));
}

#[test]
fn workspace_default_starts_at_the_remote_root() {
    let data = WorkspaceData::default();
    assert_eq!(data.cloud_path, "//");
    assert!(data.local_entries.is_empty());
    assert!(data.cloud_entries.is_empty());
}

#[test]
fn submit_refreshes_the_cache_after_list() {
    let mut client = InMemoryClient::new();
    client.put_cloud(String::from("///remote.txt"), vec![9u8]);
    let mut app = fresh_app(client, vec!["notes.md", "src/"]);
    app.input_command = String::from("list");
    app.submit_command();
    assert_eq!(app.workspace_data.local_entries, vec!["notes.md", "src/"]);
    assert_eq!(app.workspace_data.cloud_entries, vec!["remote.txt"]);
    assert_eq!(app.logs, vec!["list"]);
    assert_eq!(app.input_command, "");
    assert_eq!(app.cursor_position, 0);
}

#[test]
fn submit_upload_stores_the_file_remotely() {
    let mut client = InMemoryClient::new();
    client.put_local(String::from("/home/a.txt"), vec![7u8, 8]);
    let mut app = fresh_app(client, vec![]);
    app.input_command = String::from("upload /home/a.txt ///a.txt");
    app.submit_command();
    assert_eq!(app.logs, vec!["upload /home/a.txt ///a.txt"]);
    assert_eq!(app.workspace_data.cloud_entries, vec!["a.txt"]);
    let stored = app.cloud_client.get_cloud(&String::from("///a.txt")).unwrap();
    assert_eq!(stored, &vec![7u8, 8]);
}

#[test]
fn submit_delete_updates_the_cache() {
    let mut client = InMemoryClient::new();
    client.put_cloud(String::from("///a.txt"), vec![1u8]);
    client.put_cloud(String::from("///b.txt"), vec![2u8]);
    let mut app = fresh_app(client, vec![]);
    app.input_command = String::from("delete ///a.txt");
    app.submit_command();
    assert_eq!(app.logs, vec!["delete ///a.txt"]);
    let mut cloud = app.workspace_data.cloud_entries.clone();
    cloud.sort();
    assert_eq!(cloud, vec!["b.txt"]);
}

#[test]
fn submit_download_failure_logs_the_error() {
    let client = InMemoryClient::new();
    let mut app = fresh_app(client, vec![]);
    app.input_command = String::from("download ///none /home/x");
    app.submit_command();
    assert_eq!(
        app.logs,
        vec![
            String::from("download ///none /home/x"),
            String::from("Request error: check your input paths"),
        ]
    );
    assert_eq!(app.input_command, "");
}

#[test]
fn submit_clear_empties_the_log() {
    let client = InMemoryClient::new();
    let mut app = fresh_app(client, vec![]);
    app.input_command = String::from("list");
    app.submit_command();
    app.input_command = String::from("clear");
    app.submit_command();
    assert_eq!(app.logs, Vec::<String>::new());
    assert_eq!(app.input_command, "");
    assert_eq!(app.cursor_position, 0);
}

#[test]
fn submit_unparsable_line_logs_the_fixed_message() {
    let client = InMemoryClient::new();
    let mut app = fresh_app(client, vec![]);
    app.input_command = String::from("frobnicate /x");
    app.submit_command();
    assert_eq!(
        app.logs,
        vec![
            String::from("frobnicate /x"),
            String::from("unable to parse command"),
        ]
    );
    assert_eq!(app.input_command, "");
    assert_eq!(app.cursor_position, 0);
}

#[test]
fn line_editing_inserts_and_deletes_at_the_cursor() {
    let client = InMemoryClient::new();
    let mut app = fresh_app(client, vec![]);
    assert!(matches!(app.work_mode, WorkMode::Read));
    app.enter_char('l');
    app.enter_char('s');
    app.enter_char('t');
    assert_eq!(app.input_command, "lst");
    assert_eq!(app.cursor_position, 3);
    app.move_cursor_left();
    app.move_cursor_left();
    app.enter_char('i');
    assert_eq!(app.input_command, "list");
    assert_eq!(app.cursor_position, 2);
    app.delete_char();
    assert_eq!(app.input_command, "lst");
    assert_eq!(app.cursor_position, 1);
    app.move_cursor_right();
    app.enter_char('i');
    assert_eq!(app.input_command, "lsit");
    app.reset_cursor();
    assert_eq!(app.cursor_position, 0);
    app.delete_char();
    assert_eq!(app.input_command, "lsit");
    assert_eq!(app.clamp_cursor(99), 4);
}

#[test]
fn seeding_the_same_path_twice_overwrites() {
    let mut client = InMemoryClient::new();
    client.put_cloud(String::from("/dir/a"), vec![1u8]);
    client.put_cloud(String::from("/dir/a"), vec![2u8]);
    assert_eq!(client.get_cloud(&String::from("/dir/a")).unwrap(), &vec![2u8]);
    let names = client.list_entries(&String::from("/dir")).unwrap();
    assert_eq!(names, vec!["a"]);
}

#[test]
fn download_overwrites_the_local_target() {
    let mut client = InMemoryClient::new();
    client.put_local(String::from("/home/out"), vec![9u8, 9]);
    client.put_cloud(String::from("/r/p"), vec![4u8]);
    client
        .download(&String::from("/r/p"), &String::from("/home/out"))
        .unwrap();
    assert_eq!(client.get_local(&String::from("/home/out")).unwrap(), &vec![4u8]);
}

#[test]
fn upload_leaves_the_local_store_alone() {
    let mut client = InMemoryClient::new();
    client.put_local(String::from("/home/a"), vec![1u8]);
    client
        .upload(&String::from("/home/a"), &String::from("/r/a"))
        .unwrap();
    assert_eq!(client.get_local(&String::from("/home/a")).unwrap(), &vec![1u8]);
    assert_eq!(client.get_cloud(&String::from("/r/a")).unwrap(), &vec![1u8]);
}
