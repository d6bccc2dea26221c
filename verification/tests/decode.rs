use wego::request::{ContentsResponse, Links};
use wego::FetchError;

fn content_with_body(body: &str) -> ContentsResponse {
    ContentsResponse {
        name: "file.txt".to_string(),
        path: "templates/components/A/file.txt".to_string(),
        sha: "0000000000000000000000000000000000000000".to_string(),
        size: body.len() as u32,
        url: "https://api.github.com/repos/org/repo/contents/file.txt".to_string(),
        html_url: "https://github.com/org/repo/blob/main/file.txt".to_string(),
        git_url: "https://api.github.com/repos/org/repo/git/blobs/0".to_string(),
        download_url: "https://raw.githubusercontent.com/org/repo/main/file.txt".to_string(),
        file_type: "file".to_string(),
        content: body.to_string(),
        encoding: "base64".to_string(),
        _links: Links {
            _self: "https://api.github.com/repos/org/repo/contents/file.txt".to_string(),
            git: "https://api.github.com/repos/org/repo/git/blobs/0".to_string(),
            html: "https://github.com/org/repo/blob/main/file.txt".to_string(),
        },
    }
}

#[test]
fn whitespace_payload_decodes_like_stripped_payload() {
    let noisy = content_with_body("aGVs\nbG8=\r");
    let clean = content_with_body("aGVsbG8=");
    let a = noisy.decode_base64_to_u8().unwrap();
    let b = clean.decode_base64_to_u8().unwrap();
    assert_eq!(a, b);
    assert_eq!(a, b"hello".to_vec());
}

#[test]
fn decode_to_string_gives_text() {
    let c = content_with_body("aGVs\nbG8=\r");
    assert_eq!(c.decode_base64_to_string().unwrap(), "hello");
}

#[test]
fn all_whitespace_kinds_are_stripped() {
    let c = content_with_body(" aGV s\tbG8=\u{0b}\u{0c}\r\n");
    assert_eq!(c.decode_base64_to_string().unwrap(), "hello");
}

#[test]
fn invalid_base64_is_an_encoding_error() {
    let c = content_with_body("@@not base64@@");
    assert_eq!(c.decode_base64_to_u8().unwrap_err(), FetchError::Encoding);
    assert_eq!(c.decode_base64_to_string().unwrap_err(), FetchError::Encoding);
}

#[test]
fn non_utf8_bytes_decode_only_to_bytes() {
    // "//4=" is the base64 form of the bytes ff fe, which are not UTF-8.
    let c = content_with_body("//4=");
    assert_eq!(c.decode_base64_to_u8().unwrap(), vec![0xffu8, 0xfeu8]);
    assert_eq!(c.decode_base64_to_string().unwrap_err(), FetchError::Encoding);
}

#[test]
fn empty_payload_decodes_to_nothing() {
    let c = content_with_body("");
    assert_eq!(c.decode_base64_to_u8().unwrap(), Vec::<u8>::new());
    assert_eq!(c.decode_base64_to_string().unwrap(), "");
}
