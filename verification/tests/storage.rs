use r2_gateway::api;
use r2_gateway::r2::{
    content_type_or_default, delete_file, download_file, downloaded_file, endpoint_url, file_info,
    get_full_path, list_files, listed_files, listed_size, max_keys, strip_base_path, upload_file,
    GetReply, RemoteObject, BASE_PATH,
};
use std::collections::BTreeMap;

fn object(key: &str, size: i64, time: &str) -> RemoteObject {
    RemoteObject { key: Some(key.to_string()), size: Some(size), last_modified: Some(time.to_string()) }
}

#[test]
fn full_path_puts_the_folder_in_front() {
    assert_eq!(BASE_PATH, "content/md");
    assert_eq!(get_full_path("notes.md"), "content/md/notes.md");
    assert_eq!(get_full_path(""), "content/md/");
    assert_eq!(get_full_path("../escape"), "content/md/../escape");
    assert_eq!(get_full_path("/abs"), "content/md//abs");
}

#[test]
fn strip_takes_the_folder_away() {
    assert_eq!(strip_base_path("content/md/notes.md"), "notes.md");
    assert_eq!(strip_base_path("content/md/"), "");
    assert_eq!(strip_base_path("other/notes.md"), "other/notes.md");
    assert_eq!(strip_base_path("content/md"), "content/md");
    assert_eq!(strip_base_path("content/mdx/notes.md"), "content/mdx/notes.md");
    assert_eq!(strip_base_path("x/content/md/notes.md"), "x/content/md/notes.md");
    assert_eq!(strip_base_path(""), "");
}

#[test]
fn strip_undoes_full_path() {
    let names = [
        "",
        "a",
        "notes.md",
        "content/md/notes.md",
        "content/md/",
        "content/md",
        "/content/md/x",
        "sub/dir/ü.md",
        "日本語.txt",
        " spaced name ",
    ];
    for name in names {
        assert_eq!(strip_base_path(&get_full_path(name)), name);
    }
}

#[test]
fn folder_text_in_a_filename_gains_one_layer_only() {
    let key = get_full_path("content/md/notes.md");
    assert_eq!(key, "content/md/content/md/notes.md");
    assert_eq!(strip_base_path(&key), "content/md/notes.md");
    assert_eq!(strip_base_path(&strip_base_path(&key)), "notes.md");
}

#[test]
fn listing_asks_under_the_folder() {
    let all = list_files(None, None);
    assert_eq!(all.prefix, "content/md/");
    assert_eq!(all.max_keys, None);
    let some = list_files(Some("drafts/"), Some(10));
    assert_eq!(some.prefix, "content/md/drafts/");
    assert_eq!(some.max_keys, Some(10));
    let empty = list_files(Some(""), Some(0));
    assert_eq!(empty.prefix, "content/md/");
    assert_eq!(empty.max_keys, Some(0));
}

#[test]
fn limit_is_cut_to_the_width_the_store_takes() {
    assert_eq!(max_keys(0), 0);
    assert_eq!(max_keys(1), 1);
    assert_eq!(max_keys(1000), 1000);
    assert_eq!(max_keys(2147483647), 2147483647);
    assert_eq!(max_keys(2147483648), -2147483648);
    assert_eq!(max_keys(4294967295), -1);
    assert_eq!(max_keys(4294967296), 0);
    assert_eq!(max_keys(4294967301), 5);
    for n in [0usize, 7, 65536, 2147483647, 2147483648, 4294967295, 4294967296, usize::MAX] {
        assert_eq!(max_keys(n), n as i32);
        assert!((max_keys(n) as i64) <= n as i64 || n > i64::MAX as usize);
    }
}

#[test]
fn sizes_are_read_as_unsigned() {
    assert_eq!(listed_size(None), 0);
    assert_eq!(listed_size(Some(0)), 0);
    assert_eq!(listed_size(Some(1234)), 1234);
    assert_eq!(listed_size(Some(i64::MAX)), 9223372036854775807);
    assert_eq!(listed_size(Some(-1)), 18446744073709551615);
    assert_eq!(listed_size(Some(i64::MIN)), 9223372036854775808);
    for s in [0i64, 1, -1, -2, i64::MIN, i64::MAX, -4096] {
        assert_eq!(listed_size(Some(s)), s as u64);
    }
}

#[test]
fn file_info_of_a_full_object() {
    let info = file_info(object("content/md/a.md", 42, "2024-05-01T10:00:00Z"));
    assert_eq!(info.name, "a.md");
    assert_eq!(info.size, 42);
    assert_eq!(info.last_modified, "2024-05-01T10:00:00Z");
}

#[test]
fn file_info_of_an_object_with_nothing_known() {
    let info = file_info(RemoteObject { key: None, size: None, last_modified: None });
    assert_eq!(info.name, "");
    assert_eq!(info.size, 0);
    assert_eq!(info.last_modified, "Unknown");
}

#[test]
fn listing_keeps_the_stores_order_and_count() {
    let files = listed_files(vec![
        object("content/md/b.md", 2, "t2"),
        object("content/md/a.md", 1, "t1"),
        object("elsewhere/c.md", 3, "t3"),
    ]);
    assert_eq!(files.len(), 3);
    assert_eq!(files[0].name, "b.md");
    assert_eq!(files[1].name, "a.md");
    assert_eq!(files[2].name, "elsewhere/c.md");
    assert_eq!(files[2].size, 3);
    assert_eq!(files[1].last_modified, "t1");
    assert_eq!(listed_files(Vec::new()).len(), 0);
}

#[test]
fn upload_puts_the_bytes_at_the_key_of_the_filename() {
    let put = upload_file("a.md", vec![1, 2, 3], "text/markdown");
    assert_eq!(put.key, "content/md/a.md");
    assert_eq!(put.body, vec![1, 2, 3]);
    assert_eq!(put.content_type, "text/markdown");
}

#[test]
fn download_and_delete_name_the_key_of_the_filename() {
    assert_eq!(download_file("a.md"), "content/md/a.md");
    assert_eq!(delete_file("a.md"), "content/md/a.md");
    assert_eq!(download_file("content/md/a.md"), "content/md/content/md/a.md");
}

#[test]
fn download_hands_back_what_the_store_answered() {
    let (bytes, kind) =
        downloaded_file(GetReply { content_type: Some("image/png".to_string()), body: vec![9, 8] });
    assert_eq!(bytes, vec![9, 8]);
    assert_eq!(kind, "image/png");
    let (bytes, kind) = downloaded_file(GetReply { content_type: None, body: Vec::new() });
    assert_eq!(bytes, Vec::<u8>::new());
    assert_eq!(kind, "application/octet-stream");
}

#[test]
fn content_type_falls_back_to_the_default() {
    assert_eq!(content_type_or_default(Some("text/plain")), "text/plain");
    assert_eq!(content_type_or_default(Some("")), "");
    assert_eq!(content_type_or_default(None), "application/octet-stream");
}

#[test]
fn upload_then_download_gives_the_same_bytes_and_type() {
    let mut store: BTreeMap<String, (Vec<u8>, String)> = BTreeMap::new();
    let data: Vec<u8> = (0..=255).collect();
    let put = upload_file("pic.bin", data.clone(), "image/x-test");
    store.insert(put.key, (put.body, put.content_type));
    let again = upload_file("other.bin", vec![7], "text/plain");
    store.insert(again.key, (again.body, again.content_type));

    let (body, kind) = store.get(&download_file("pic.bin")).unwrap().clone();
    let (bytes, content_type) = downloaded_file(GetReply { content_type: Some(kind), body });
    assert_eq!(bytes, data);
    assert_eq!(content_type, "image/x-test");
}

#[test]
fn upload_overwrites_and_delete_removes_in_a_store_keyed_by_path() {
    let mut store: BTreeMap<String, (Vec<u8>, String)> = BTreeMap::new();
    let first = upload_file("a.md", vec![1], "text/markdown");
    store.insert(first.key, (first.body, first.content_type));
    let second = upload_file("a.md", vec![2, 2], "text/plain");
    store.insert(second.key, (second.body, second.content_type));
    assert_eq!(store.len(), 1);
    assert_eq!(store.get(&download_file("a.md")).unwrap().0, vec![2, 2]);
    store.remove(&delete_file("a.md"));
    assert!(store.get(&download_file("a.md")).is_none());
}

#[test]
fn listing_with_a_limit_shows_no_more_than_the_store_returned() {
    let stored: Vec<RemoteObject> =
        (0..10).map(|i| object(&format!("content/md/f{}.md", i), i, "t")).collect();
    for limit in [0usize, 1, 3, 10, 25] {
        let request = list_files(None, Some(limit));
        let cap = request.max_keys.unwrap() as usize;
        let page: Vec<RemoteObject> = stored
            .iter()
            .filter(|o| o.key.as_deref().unwrap().starts_with(&request.prefix))
            .take(cap)
            .cloned()
            .collect();
        let response = api::list_response(page);
        assert!(response.files.len() <= limit);
        assert_eq!(response.total, response.files.len());
        assert_eq!(response.total, limit.min(10));
    }
}

#[test]
fn endpoint_is_built_from_the_account() {
    assert_eq!(endpoint_url("abc123"), "https://abc123.r2.cloudflarestorage.com");
    assert_eq!(endpoint_url(""), "https://.r2.cloudflarestorage.com");
}
