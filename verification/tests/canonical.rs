use blob_shared_key::canonical::{
    canonical_resource_text, query_lines_text, string_to_sign, Method, Operation, API_VERSION,
};
use blob_shared_key::query::{param_before, sort_params, QueryParam};
use blob_shared_key::text::{bytes_le, decimal_text, same_text};

const TIME: &str = "Tue, 01 Jan 2019 00:00:00 GMT";

fn param(name: &str, value: &str) -> QueryParam {
    QueryParam { name: String::from(name), value: String::from(value) }
}

fn download() -> Operation {
    Operation::DownloadBlob { container: String::from("c"), blob: String::from("b.txt") }
}

fn list(prefix: &str) -> Operation {
    Operation::ListBlobs { container: String::from("c"), prefix: String::from(prefix) }
}

fn upload(payload: &[u8]) -> Operation {
    Operation::UploadBlob {
        container: String::from("c"),
        blob: String::from("b.txt"),
        payload: payload.to_vec(),
    }
}

#[test]
fn api_version_is_the_fixed_literal() {
    assert_eq!(API_VERSION, "2019-12-12");
}

#[test]
fn download_string_has_twelve_blank_slots_after_the_verb() {
    assert_eq!(
        string_to_sign(&download(), "acct", TIME),
        "GET\n\n\n\n\n\n\n\n\n\n\n\nx-ms-date:Tue, 01 Jan 2019 00:00:00 GMT\nx-ms-version:2019-12-12\n/acct/c/b.txt"
    );
}

#[test]
fn upload_string_carries_length_type_and_blob_type() {
    assert_eq!(
        string_to_sign(&upload(b"hello"), "acct", TIME),
        "PUT\n\n\n5\n\napplication/octet-stream\n\n\n\n\n\n\nx-ms-blob-type:BlockBlob\nx-ms-date:Tue, 01 Jan 2019 00:00:00 GMT\nx-ms-version:2019-12-12\n/acct/c/b.txt"
    );
}

#[test]
fn upload_length_is_written_in_decimal() {
    let text = string_to_sign(&upload(&[0u8; 1024]), "acct", TIME);
    assert!(text.starts_with("PUT\n\n\n1024\n\napplication/octet-stream\n"));
}

#[test]
fn zero_byte_upload_leaves_content_length_blank() {
    let text = string_to_sign(&upload(b""), "acct", TIME);
    let with_zero = "PUT\n\n\n0\n\napplication/octet-stream\n\n\n\n\n\n\nx-ms-blob-type:BlockBlob\nx-ms-date:Tue, 01 Jan 2019 00:00:00 GMT\nx-ms-version:2019-12-12\n/acct/c/b.txt";
    assert_eq!(
        text,
        "PUT\n\n\n\n\napplication/octet-stream\n\n\n\n\n\n\nx-ms-blob-type:BlockBlob\nx-ms-date:Tue, 01 Jan 2019 00:00:00 GMT\nx-ms-version:2019-12-12\n/acct/c/b.txt"
    );
    assert_ne!(text, with_zero);
}

#[test]
fn listing_string_has_sorted_query_lines() {
    assert_eq!(
        string_to_sign(&list("a"), "acct", TIME),
        "GET\n\n\n\n\n\n\n\n\n\n\n\nx-ms-date:Tue, 01 Jan 2019 00:00:00 GMT\nx-ms-version:2019-12-12\n/acct/c/\ncomp:list\nprefix:a\nrestype:container"
    );
}

#[test]
fn listing_with_empty_prefix_keeps_the_prefix_line() {
    assert_eq!(
        canonical_resource_text(&list(""), "acct"),
        "/acct/c/\ncomp:list\nprefix:\nrestype:container"
    );
}

#[test]
fn resource_is_not_percent_encoded() {
    let op = Operation::DownloadBlob {
        container: String::from("c"),
        blob: String::from("dir/a b%.txt"),
    };
    assert_eq!(canonical_resource_text(&op, "acct"), "/acct/c/dir/a b%.txt");
}

#[test]
fn query_parameters_are_signed_in_name_order_whatever_the_given_order() {
    let expected = vec![param("comp", "list"), param("prefix", "a"), param("restype", "container")];
    let orders = vec![
        vec![param("prefix", "a"), param("comp", "list"), param("restype", "container")],
        vec![param("comp", "list"), param("restype", "container"), param("prefix", "a")],
        vec![param("restype", "container"), param("prefix", "a"), param("comp", "list")],
        vec![param("restype", "container"), param("comp", "list"), param("prefix", "a")],
        vec![param("prefix", "a"), param("restype", "container"), param("comp", "list")],
        vec![param("comp", "list"), param("prefix", "a"), param("restype", "container")],
    ];
    for given in orders {
        let sorted = sort_params(given);
        assert_eq!(sorted, expected);
        assert_eq!(query_lines_text(&sorted), "\ncomp:list\nprefix:a\nrestype:container");
    }
}

#[test]
fn equal_names_are_ordered_by_value() {
    let sorted = sort_params(vec![param("a", "2"), param("b", ""), param("a", "1"), param("a", "2")]);
    assert_eq!(sorted, vec![param("a", "1"), param("a", "2"), param("a", "2"), param("b", "")]);
}

#[test]
fn sorting_nothing_gives_nothing() {
    assert_eq!(sort_params(Vec::new()), Vec::new());
    assert_eq!(query_lines_text(&Vec::new()), "");
}

#[test]
fn parameter_order_is_byte_wise() {
    assert!(param_before(&param("comp", "list"), &param("prefix", "")));
    assert!(!param_before(&param("prefix", ""), &param("comp", "list")));
    assert!(param_before(&param("Z", ""), &param("a", "")));
    assert!(param_before(&param("ab", "z"), &param("abc", "a")));
    assert!(param_before(&param("a", "x"), &param("a", "x")));
    assert!(!param_before(&param("a", "y"), &param("a", "x")));
    assert!(param_before(&param("z", ""), &param("\u{e9}", "")));
}

#[test]
fn byte_strings_compare_lexicographically() {
    assert!(bytes_le(b"", b""));
    assert!(bytes_le(b"", b"a"));
    assert!(!bytes_le(b"a", b""));
    assert!(bytes_le(b"abc", b"abd"));
    assert!(!bytes_le(b"abd", b"abc"));
    assert!(bytes_le(b"ab", b"abc"));
    assert!(!bytes_le(b"abc", b"ab"));
    assert!(bytes_le(b"abc", b"abc"));
    assert!(bytes_le(&[0x7f], &[0x80]));
}

#[test]
fn texts_are_the_same_only_when_equal() {
    assert!(same_text("Name", "Name"));
    assert!(!same_text("Name", "name"));
    assert!(!same_text("Name", "Names"));
    assert!(same_text("", ""));
}

#[test]
fn decimal_numerals() {
    assert_eq!(decimal_text(0), "0");
    assert_eq!(decimal_text(7), "7");
    assert_eq!(decimal_text(10), "10");
    assert_eq!(decimal_text(403), "403");
    assert_eq!(decimal_text(1024), "1024");
    assert_eq!(decimal_text(9_007_199_254_740_993), "9007199254740993");
    assert_eq!(decimal_text(u64::MAX), "18446744073709551615");
}

#[test]
fn methods_and_targets_of_operations() {
    assert_eq!(download().method(), Method::Get);
    assert_eq!(list("a").method(), Method::Get);
    assert_eq!(upload(b"x").method(), Method::Put);
    assert_eq!(Method::Get.as_str(), "GET");
    assert_eq!(Method::Put.as_str(), "PUT");
    assert_eq!(download().container(), "c");
    assert_eq!(download().blob(), "b.txt");
    assert_eq!(list("a").blob(), "");
    assert_eq!(upload(b"hello").payload_len(), 5);
    assert_eq!(download().payload_len(), 0);
    assert_eq!(download().query(), Vec::new());
    assert_eq!(
        list("a").query(),
        vec![param("comp", "list"), param("restype", "container"), param("prefix", "a")]
    );
}
