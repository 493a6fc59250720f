use cloud_storage_utilizer::cloud_client::dropbox::api_url::ApiUrl;
use cloud_storage_utilizer::cloud_client::dropbox::client::{
    authorization_header_value, dropbox_api_header, list_outcome, map_error_status, status_outcome,
};
use cloud_storage_utilizer::cloud_client::dropbox::entities::metadata::{
    decode_metadata, tag_from_str, Metadata, RawEntry, Tag,
};
use cloud_storage_utilizer::cloud_client::dropbox::parameters::delete::DeleteParameters;
use cloud_storage_utilizer::cloud_client::dropbox::parameters::download::DownloadParameters;
use cloud_storage_utilizer::cloud_client::dropbox::parameters::list_folder::ListFolderParameters;
use cloud_storage_utilizer::cloud_client::dropbox::parameters::upload::{
    UploadMode, UploadParameters,
};
use cloud_storage_utilizer::cloud_client::dropbox::responses::list_folder::{
    decode_list_folder, ListFolderResult, RawListing,
};
use cloud_storage_utilizer::errors::AppError;

#[test]
fn api_urls_are_fixed() {
    assert_eq!(
        ApiUrl::Download.as_url(),
        "https://content.dropboxapi.com/2/files/download"
    );
    assert_eq!(
        ApiUrl::Upload.as_url(),
        "https://content.dropboxapi.com/2/files/upload"
    );
    assert_eq!(
        ApiUrl::Delete.as_url(),
        "https://api.dropboxapi.com/2/files/delete_v2"
    );
    assert_eq!(
        ApiUrl::ListFolder.as_url(),
        "https://api.dropboxapi.com/2/files/list_folder"
    );
}

#[test]
fn authorization_header_holds_the_token() {
    assert_eq!(authorization_header_value("abc"), "Bearer abc");
    assert_eq!(dropbox_api_header(), "Dropbox-API-Arg");
}

#[test]
fn download_parameters_serialize() {
    let p = DownloadParameters::new(String::from("/dir/file.txt"));
    assert_eq!(p.to_json(), "{\"path\":\"/dir/file.txt\"}");
}

#[test]
fn delete_parameters_serialize() {
    let p = DeleteParameters::new(String::from("/gone"));
    assert_eq!(p.to_json(), "{\"path\":\"/gone\"}");
}

#[test]
fn list_folder_parameters_serialize_with_limit() {
    let p = ListFolderParameters::new(String::from("/d"), Some(2000));
    assert_eq!(p.to_json(), "{\"path\":\"/d\",\"limit\":2000}");
    let q = ListFolderParameters::new(String::from("/d"), None);
    assert_eq!(q.to_json(), "{\"path\":\"/d\"}");
    let r = ListFolderParameters::new(String::from("/d"), Some(-7));
    assert_eq!(r.to_json(), "{\"path\":\"/d\",\"limit\":-7}");
}

#[test]
fn upload_parameters_serialize_optional_fields() {
    let bare = UploadParameters::new(String::from("/up"), None, None);
    assert_eq!(bare.to_json(), "{\"path\":\"/up\"}");
    let full = UploadParameters::new(
        String::from("/up"),
        Some(UploadMode::Overwrite),
        Some(true),
    );
    assert_eq!(
        full.to_json(),
        "{\"path\":\"/up\",\"mode\":\"Overwrite\",\"auto_rename\":true}"
    );
}

#[test]
fn json_string_escaping() {
    let p = DownloadParameters::new(String::from("a\"b\\c\nd\te\u{1}f"));
    assert_eq!(
        p.to_json(),
        "{\"path\":\"a\\\"b\\\\c\\nd\\te\\u0001f\"}"
    );
}

#[test]
fn tag_words_map_to_tags() {
    assert_eq!(tag_from_str(&String::from("file")), Some(Tag::File));
    assert_eq!(tag_from_str(&String::from("folder")), Some(Tag::Folder));
    assert_eq!(tag_from_str(&String::from("deleted")), Some(Tag::Deleted));
    assert_eq!(tag_from_str(&String::from("File")), None);
    assert_eq!(tag_from_str(&String::from("")), None);
}

#[test]
fn simple_list_filters_and_suffixes() {
    let result = ListFolderResult {
        entries: vec![
            Metadata { tag: Tag::File, name: String::from("a.txt") },
            Metadata { tag: Tag::Folder, name: String::from("dir") },
            Metadata { tag: Tag::Deleted, name: String::from("gone") },
        ],
        cursor: String::from("c"),
        has_more: false,
    };
    assert_eq!(result.get_simple_list(), vec!["a.txt", "dir/"]);
}

#[test]
fn bad_request_status_names_the_paths() {
    match map_error_status(400) {
        AppError::Request(reason) => assert_eq!(reason, "check your input paths"),
        _ => panic!("expected a request error"),
    }
}

#[test]
fn unauthorized_status_names_the_token() {
    match map_error_status(401) {
        AppError::Request(reason) => assert_eq!(reason, "check your access token"),
        _ => panic!("expected a request error"),
    }
}

#[test]
fn other_statuses_say_something_went_wrong() {
    for status in [403u16, 409, 429, 500, 503] {
        match map_error_status(status) {
            AppError::Request(reason) => assert_eq!(reason, "something went wrong"),
            _ => panic!("expected a request error"),
        }
    }
}

#[test]
fn status_outcome_succeeds_only_on_success_status() {
    assert!(status_outcome(200).is_ok());
    assert!(status_outcome(400).is_err());
    assert!(status_outcome(500).is_err());
}

#[test]
fn list_outcome_decodes_a_listing_page() {
    let body = "{\"entries\":[{\".tag\":\"file\",\"name\":\"a.txt\"},\
                 {\".tag\":\"folder\",\"name\":\"dir\"},\
                 {\".tag\":\"deleted\",\"name\":\"gone\"}],\
                 \"cursor\":\"c123\",\"has_more\":false}";
    let names = list_outcome(200, body).unwrap();
    assert_eq!(names, vec!["a.txt", "dir/"]);
}

#[test]
fn list_outcome_maps_non_success_statuses() {
    match list_outcome(400, "") {
        Err(AppError::Request(reason)) => assert_eq!(reason, "check your input paths"),
        _ => panic!("expected a request error"),
    }
    match list_outcome(401, "") {
        Err(AppError::Request(reason)) => assert_eq!(reason, "check your access token"),
        _ => panic!("expected a request error"),
    }
    match list_outcome(503, "") {
        Err(AppError::Request(reason)) => assert_eq!(reason, "something went wrong"),
        _ => panic!("expected a request error"),
    }
}

#[test]
fn list_outcome_rejects_an_undecodable_payload() {
    match list_outcome(200, "not json") {
        Err(AppError::Response(reason)) => assert_eq!(reason, "unable to get response content"),
        _ => panic!("expected a response error"),
    }
    match list_outcome(200, "{\"entries\":[{\"name\":\"missing tag\"}],\"cursor\":\"c\",\"has_more\":false}") {
        Err(AppError::Response(reason)) => assert_eq!(reason, "unable to get response content"),
        _ => panic!("expected a response error"),
    }
    match list_outcome(200, "{\"entries\":[],\"cursor\":\"c\"}") {
        Err(AppError::Response(reason)) => assert_eq!(reason, "unable to get response content"),
        _ => panic!("expected a response error"),
    }
}

#[test]
fn error_messages_render() {
    assert_eq!(AppError::ParseCommand.message(), "unable to parse command");
    assert_eq!(AppError::AbsentAccessToken.message(), "Access token is absent");
    assert_eq!(
        AppError::PrepareClient(String::from("no tls")).message(),
        "Failed to prepare cloud client: no tls"
    );
    assert_eq!(
        AppError::PrepareRequestParameters.message(),
        "Failed to prepare request parameters"
    );
    assert_eq!(AppError::PrepareRequest.message(), "Failed to prepare request");
    assert_eq!(
        AppError::SendRequest(String::from("timed out")).message(),
        "Failed to send request: timed out"
    );
    assert_eq!(
        AppError::Request(String::from("check your input paths")).message(),
        "Request error: check your input paths"
    );
    assert_eq!(
        AppError::Response(String::from("bad payload")).message(),
        "Response error: bad payload"
    );
    assert_eq!(
        AppError::Io(String::from("denied")).message(),
        "Io error: denied"
    );
}

#[test]
fn decode_metadata_maps_the_tag_words() {
    let file = RawEntry { tag_word: String::from("file"), name: String::from("a.txt") };
    let decoded = decode_metadata(&file).unwrap();
    assert_eq!(decoded.tag, Tag::File);
    assert_eq!(decoded.name, "a.txt");

    let folder = RawEntry { tag_word: String::from("folder"), name: String::from("dir") };
    let decoded = decode_metadata(&folder).unwrap();
    assert_eq!(decoded.tag, Tag::Folder);
    assert_eq!(decoded.name, "dir");

    let gone = RawEntry { tag_word: String::from("deleted"), name: String::from("gone") };
    assert_eq!(decode_metadata(&gone).unwrap().tag, Tag::Deleted);

    let odd = RawEntry { tag_word: String::from("symlink"), name: String::from("x") };
    assert!(decode_metadata(&odd).is_none());
}

#[test]
fn decode_list_folder_carries_the_page_over() {
    let raw = RawListing {
        entries: vec![
            RawEntry { tag_word: String::from("file"), name: String::from("a.txt") },
            RawEntry { tag_word: String::from("folder"), name: String::from("dir") },
        ],
        cursor: String::from("c9"),
        has_more: true,
    };
    let page = decode_list_folder(&raw).unwrap();
    assert_eq!(page.entries.len(), 2);
    assert_eq!(page.entries[0].tag, Tag::File);
    assert_eq!(page.entries[0].name, "a.txt");
    assert_eq!(page.entries[1].tag, Tag::Folder);
    assert_eq!(page.cursor, "c9");
    assert!(page.has_more);

    let bad = RawListing {
        entries: vec![RawEntry { tag_word: String::from("weird"), name: String::from("x") }],
        cursor: String::from("c"),
        has_more: false,
    };
    assert!(decode_list_folder(&bad).is_none());
}

#[test]
fn list_outcome_rejects_an_unknown_tag_word() {
    let body = "{\"entries\":[{\".tag\":\"weird\",\"name\":\"x\"}],\"cursor\":\"c\",\"has_more\":false}";
    match list_outcome(200, body) {
        Err(AppError::Response(reason)) => assert_eq!(reason, "unable to get response content"),
        _ => panic!("expected a response error"),
    }
}

#[test]
fn list_outcome_ignores_extra_payload_fields() {
    let body = "{\"entries\":[{\".tag\":\"file\",\"name\":\"a\",\"size\":12}],\"cursor\":\"c\",\"has_more\":true,\"extra\":null}";
    assert_eq!(list_outcome(200, body).unwrap(), vec!["a"]);
}
