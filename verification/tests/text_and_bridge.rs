use post::files::{hex_string, sha256_hex, FileBinaryUploadRequest, FileUsage};
use post::posts::stable_slug;
use post::routes::notification_websocket_url;
use post::search::user_search_id;
use post::text::{char_count, clone_strings, concat_str, is_blank, split_trimmed, str_eq, strings, trim_str};
use post::user::UserAuth;

#[test]
fn trim_removes_unicode_white_space() {
    assert_eq!(trim_str("  \u{3000}hello\t\n"), "hello");
    assert_eq!(trim_str(""), "");
    assert!(is_blank(" \u{a0} "));
    assert!(!is_blank(" a "));
}

#[test]
fn char_count_counts_characters_not_bytes() {
    assert_eq!(char_count("分类名称"), 4);
    assert_eq!(char_count("abc"), 3);
}

#[test]
fn concat_and_equality() {
    assert_eq!(concat_str("#", "rust"), "#rust");
    assert!(str_eq("a", "a"));
    assert!(!str_eq("a", "b"));
}

#[test]
fn split_trimmed_drops_empty_pieces() {
    assert_eq!(
        split_trimmed(" post:view, ,comment:view ,", ','),
        vec!["post:view".to_string(), "comment:view".to_string()]
    );
    assert!(split_trimmed("", ',').is_empty());
    assert!(split_trimmed(" , ,", ',').is_empty());
}

#[test]
fn string_lists_are_copied() {
    let v = strings(&["a", "b"]);
    assert_eq!(v, vec!["a".to_string(), "b".to_string()]);
    assert_eq!(clone_strings(&v), v);
}

#[test]
fn lower_casing_goes_through_std() {
    assert_eq!(user_search_id("LePTos 2"), "leptos2");
    assert_eq!(user_search_id("管理员"), "u-7ba1-7406-5458");
    assert_eq!(stable_slug("tag", "ÄB", 1), "b");
    assert_eq!(stable_slug("tag", "Rust Web", 1), "rust-web");
}

#[test]
fn uuid_text_is_hyphenated_lower_case() {
    assert_eq!(
        notification_websocket_url("https:", "forum.test", 0xa1a2a3a4b1b2c1c2d1d2d3d4d5d6d7d8),
        "wss://forum.test/ws/notifications/a1a2a3a4-b1b2-c1c2-d1d2-d3d4d5d6d7d8"
    );
    assert_eq!(
        notification_websocket_url("http:", "localhost:3000", 0),
        "ws://localhost:3000/ws/notifications/00000000-0000-0000-0000-000000000000"
    );
}

#[test]
fn sha256_of_abc() {
    assert_eq!(sha256_hex(b"abc"), "ba7816bf8f01cfea414140de5dae2223b00361a396177a9cb410ff61f20015ad");
    assert_eq!(hex_string(&[0x00, 0x0f, 0xab]), "000fab");
}

#[test]
fn base64_decoding() {
    let req = FileBinaryUploadRequest {
        original_filename: "a.png".to_string(),
        mime_type: "image/png".to_string(),
        content_base64: "  aGVsbG8= \n".to_string(),
        usage: FileUsage::Avatar,
    };
    assert_eq!(req.decoded_bytes(), Ok(b"hello".to_vec()));
    let bad = FileBinaryUploadRequest { content_base64: "not base64!".to_string(), ..req };
    assert_eq!(bad.decoded_bytes(), Err("图片内容不是有效的 base64".to_string()));
}

#[test]
fn username_checks() {
    let ok = UserAuth { username: "mah_01".to_string(), password: "x".to_string() };
    assert_eq!(ok.validate(), Ok(()));
    let short = UserAuth { username: "ab".to_string(), password: "x".to_string() };
    assert_eq!(short.validate(), Err(vec!["length"]));
    let bad = UserAuth { username: "bad name".to_string(), password: "x".to_string() };
    assert_eq!(bad.validate(), Err(vec!["regex"]));
    let both = UserAuth { username: "名".to_string(), password: "x".to_string() };
    assert_eq!(both.validate(), Err(vec!["length", "regex"]));
}
