use walrus_rs::endpoint::check_path_segment;
use walrus_rs::endpoint::directory_of;
use walrus_rs::FormPart;
use walrus_rs::HttpRequest;
use walrus_rs::Json;
use walrus_rs::Method;
use walrus_rs::PartContent;
use walrus_rs::QuiltMetadata;
use walrus_rs::RequestBody;
use walrus_rs::WalrusClient;
use walrus_rs::WalrusError;

fn client() -> WalrusClient {
    WalrusClient::new(
        "https://aggregator.example.com",
        "https://publisher.example.com",
    )
    .unwrap()
}

fn file_part(name: &str, bytes: &[u8]) -> FormPart {
    FormPart { name: name.to_string(), content: PartContent::Bytes(bytes.to_vec()) }
}

#[test]
fn store_blob_without_options_has_no_query() {
    let request = client().store_blob_request(b"payload".to_vec(), None, None, None, None).unwrap();
    assert_eq!(
        request,
        HttpRequest {
            method: Method::Put,
            url: "https://publisher.example.com/v1/blobs".to_string(),
            body: RequestBody::Bytes(b"payload".to_vec()),
        }
    );
    assert!(!request.url.contains('?'));
}

#[test]
fn store_blob_with_only_deletable_has_that_one_parameter() {
    let request =
        client().store_blob_request(vec![1, 2, 3], None, Some(true), None, None).unwrap();
    assert_eq!(request.url, "https://publisher.example.com/v1/blobs?deletable=true");
    assert_eq!(request.method, Method::Put);
    assert_eq!(request.body, RequestBody::Bytes(vec![1, 2, 3]));
}

#[test]
fn store_blob_with_all_options_keeps_their_order() {
    let request = client()
        .store_blob_request(Vec::new(), Some(5), Some(false), Some(true), Some("0xabc"))
        .unwrap();
    assert_eq!(
        request.url,
        "https://publisher.example.com/v1/blobs?epochs=5&deletable=false&permanent=true&send_object_to=0xabc"
    );
    assert_eq!(request.body, RequestBody::Bytes(Vec::new()));
}

#[test]
fn store_blob_sends_false_and_zero_when_they_are_given() {
    let request =
        client().store_blob_request(Vec::new(), Some(0), None, Some(false), None).unwrap();
    assert_eq!(request.url, "https://publisher.example.com/v1/blobs?epochs=0&permanent=false");
}

#[test]
fn store_blob_writes_the_largest_epochs_in_full() {
    let request =
        client().store_blob_request(Vec::new(), Some(u64::MAX), None, None, None).unwrap();
    assert_eq!(
        request.url,
        "https://publisher.example.com/v1/blobs?epochs=18446744073709551615"
    );
}

#[test]
fn store_blob_encodes_the_recipient_as_a_form_value() {
    let request =
        client().store_blob_request(Vec::new(), None, None, None, Some("a b&c=d/é")).unwrap();
    assert_eq!(
        request.url,
        "https://publisher.example.com/v1/blobs?send_object_to=a+b%26c%3Dd%2F%C3%A9"
    );
}

#[test]
fn store_blob_sends_an_empty_recipient_as_an_empty_value() {
    let request = client().store_blob_request(Vec::new(), None, None, None, Some("")).unwrap();
    assert_eq!(request.url, "https://publisher.example.com/v1/blobs?send_object_to=");
}

#[test]
fn store_blob_carries_the_payload_unchanged() {
    let payload: Vec<u8> = vec![0, 255, 10, 13, 0xc3, 0x28, 0];
    let request = client().store_blob_request(payload.clone(), None, None, None, None).unwrap();
    assert_eq!(request.body, RequestBody::Bytes(payload));
}

#[test]
fn store_blob_resolves_the_path_against_the_base_address() {
    let with_slash = WalrusClient::new("https://a.example.com", "https://p.example.com/api/").unwrap();
    let request = with_slash.store_blob_request(Vec::new(), None, None, None, None).unwrap();
    assert_eq!(request.url, "https://p.example.com/api/v1/blobs");

    let without_slash =
        WalrusClient::new("https://a.example.com", "https://p.example.com/api").unwrap();
    assert_eq!(without_slash.publisher_url().as_str(), "https://p.example.com/api");
    let request = without_slash.store_blob_request(Vec::new(), None, None, None, None).unwrap();
    assert_eq!(request.url, "https://p.example.com/api/v1/blobs");
    let request = without_slash
        .store_quilt_request(Vec::new(), None, Some(2), None, None, None)
        .unwrap();
    assert_eq!(request.url, "https://p.example.com/api/v1/quilts?epochs=2");
}

#[test]
fn a_read_keeps_the_path_of_the_base_address() {
    let c = WalrusClient::new("https://a.example/api", "https://p.example/").unwrap();
    assert_eq!(c.aggregator_url().as_str(), "https://a.example/api");
    assert_eq!(
        c.read_blob_by_id_request("abc").unwrap().url,
        "https://a.example/api/v1/blobs/abc"
    );
    assert_eq!(
        c.read_blob_by_object_id_request("0x12").unwrap().url,
        "https://a.example/api/v1/blobs/by-object-id/0x12"
    );
    assert_eq!(
        c.read_quilt_blob_by_patch_id_request("patch-1").unwrap().url,
        "https://a.example/api/v1/blobs/by-quilt-patch-id/patch-1"
    );
    assert_eq!(
        c.read_quilt_blob_by_quilt_id_and_identifier_request("q", "a.txt").unwrap().url,
        "https://a.example/api/v1/blobs/by-quilt-id/q/a.txt"
    );
    assert_eq!(
        c.get_blob_metadata_request("abc").unwrap().url,
        "https://a.example/api/v1/blobs/abc"
    );
    let deep = WalrusClient::new("https://a.example/x/y/", "https://p.example/").unwrap();
    assert_eq!(
        deep.read_blob_by_id_request("abc").unwrap().url,
        "https://a.example/x/y/v1/blobs/abc"
    );
}

#[test]
fn a_base_address_is_taken_as_a_directory() {
    assert_eq!(directory_of("https://a.example/api"), "https://a.example/api/");
    assert_eq!(directory_of("https://a.example/api/"), "https://a.example/api/");
    assert_eq!(directory_of("https://a.example/"), "https://a.example/");
    assert_eq!(directory_of("https://a.example/api?x=1/#f"), "https://a.example/api/");
    assert_eq!(directory_of("https://a.example/api#f?x"), "https://a.example/api/");
    assert_eq!(directory_of("https://a.example/api/?x=1#f"), "https://a.example/api/?x=1#f");
    assert_eq!(directory_of("https://a.example/d%C3%A9p"), "https://a.example/d%C3%A9p/");
    assert_eq!(directory_of("dépôt"), "dépôt/");
    assert_eq!(directory_of("dépôt/?é"), "dépôt/?é");
    assert_eq!(directory_of(""), "/");
    assert_eq!(directory_of("?x"), "/");
}

#[test]
fn store_blob_drops_the_query_of_the_base_address() {
    let c = WalrusClient::new("https://a.example.com", "https://p.example.com/?token=1#top").unwrap();
    assert_eq!(c.publisher_url().as_str(), "https://p.example.com/?token=1#top");
    let request = c.store_blob_request(Vec::new(), None, Some(true), None, None).unwrap();
    assert_eq!(request.url, "https://p.example.com/v1/blobs?deletable=true");

    let c = WalrusClient::new("https://a.example.com", "https://p.example.com/api?token=1").unwrap();
    let request = c.store_blob_request(Vec::new(), None, Some(true), None, None).unwrap();
    assert_eq!(request.url, "https://p.example.com/api/v1/blobs?deletable=true");
}

#[test]
fn store_blob_fails_with_invalid_url_when_the_base_cannot_be_a_base() {
    let c = WalrusClient::new("https://a.example.com", "mailto:someone@example.com").unwrap();
    match c.store_blob_request(Vec::new(), None, None, None, None) {
        Err(WalrusError::InvalidUrl(msg)) => {
            assert_eq!(msg, "Failed to build URL: relative URL with a cannot-be-a-base base");
        }
        other => panic!("expected InvalidUrl, got {:?}", other),
    }
}

#[test]
fn store_blob_refuses_a_recipient_that_is_too_long() {
    let long = "x".repeat(0x100_0001);
    match client().store_blob_request(Vec::new(), None, None, None, Some(&long)) {
        Err(WalrusError::InvalidParameter(msg)) => {
            assert_eq!(msg, "A query parameter is too long");
        }
        other => panic!("expected InvalidParameter, got {:?}", other.map(|r| r.url.len())),
    }
    let fits = "x".repeat(0x100_0000);
    let request = client().store_blob_request(Vec::new(), None, None, None, Some(&fits)).unwrap();
    assert_eq!(
        request.url.len(),
        "https://publisher.example.com/v1/blobs?send_object_to=".len() + 0x100_0000
    );
}

#[test]
fn read_blob_by_id_asks_the_aggregator() {
    let request = client()
        .read_blob_by_id_request("jUtX26C8c9csndZOUSrYmyLKlL_4CPfH1M4fnTI_kjY")
        .unwrap();
    assert_eq!(
        request,
        HttpRequest {
            method: Method::Get,
            url: "https://aggregator.example.com/v1/blobs/jUtX26C8c9csndZOUSrYmyLKlL_4CPfH1M4fnTI_kjY"
                .to_string(),
            body: RequestBody::Empty,
        }
    );
}

#[test]
fn read_blob_by_object_id_asks_the_aggregator() {
    let request = client().read_blob_by_object_id_request("0x1234").unwrap();
    assert_eq!(
        request,
        HttpRequest {
            method: Method::Get,
            url: "https://aggregator.example.com/v1/blobs/by-object-id/0x1234".to_string(),
            body: RequestBody::Empty,
        }
    );
}

#[test]
fn read_quilt_blob_by_patch_id_asks_the_aggregator() {
    let request = client().read_quilt_blob_by_patch_id_request("patch-1").unwrap();
    assert_eq!(
        request,
        HttpRequest {
            method: Method::Get,
            url: "https://aggregator.example.com/v1/blobs/by-quilt-patch-id/patch-1".to_string(),
            body: RequestBody::Empty,
        }
    );
}

#[test]
fn read_quilt_blob_by_quilt_id_and_identifier_asks_the_aggregator() {
    let request = client()
        .read_quilt_blob_by_quilt_id_and_identifier_request("quilt-9", "a.txt")
        .unwrap();
    assert_eq!(
        request,
        HttpRequest {
            method: Method::Get,
            url: "https://aggregator.example.com/v1/blobs/by-quilt-id/quilt-9/a.txt".to_string(),
            body: RequestBody::Empty,
        }
    );
}

#[test]
fn get_blob_metadata_asks_for_the_headers_only() {
    let request = client().get_blob_metadata_request("abc").unwrap();
    assert_eq!(
        request,
        HttpRequest {
            method: Method::Head,
            url: "https://aggregator.example.com/v1/blobs/abc".to_string(),
            body: RequestBody::Empty,
        }
    );
}

#[test]
fn an_identifier_goes_into_the_path_as_it_is() {
    for id in [
        "jUtX26C8c9csndZOUSrYmyLKlL_4CPfH1M4fnTI_kjY",
        "0x1234",
        "a.txt",
        "a-b_c~d",
        "...",
        ".a",
        "a:b@c",
        "!$&'()*+,;=",
    ] {
        assert_eq!(
            client().read_blob_by_id_request(id).unwrap().url,
            format!("https://aggregator.example.com/v1/blobs/{}", id)
        );
        assert!(check_path_segment(id));
    }
}

#[test]
fn an_identifier_that_is_no_path_segment_is_refused() {
    for id in [
        "a b", "x?y=1", "../up", "", ".", "..", "a/b", "a%20b", "a#b", "é", "a\\b", "a\nb",
        "{id}", "a\"b", "<a>", "a|b", "a^b", "[a]", "a`b", " ",
    ] {
        let refused = Err(WalrusError::InvalidParameter(format!("Not a path segment: {}", id)));
        assert_eq!(client().read_blob_by_id_request(id), refused, "{:?}", id);
        assert_eq!(client().read_blob_by_object_id_request(id), refused, "{:?}", id);
        assert_eq!(client().read_quilt_blob_by_patch_id_request(id), refused, "{:?}", id);
        assert_eq!(client().get_blob_metadata_request(id), refused, "{:?}", id);
        assert_eq!(
            client().read_quilt_blob_by_quilt_id_and_identifier_request(id, "a.txt"),
            refused,
            "{:?}",
            id
        );
        assert_eq!(
            client().read_quilt_blob_by_quilt_id_and_identifier_request("quilt", id),
            refused,
            "{:?}",
            id
        );
        assert!(!check_path_segment(id));
    }
    assert_eq!(
        client().read_quilt_blob_by_quilt_id_and_identifier_request("a b", "c d"),
        Err(WalrusError::InvalidParameter("Not a path segment: a b".to_string()))
    );
}

#[test]
fn an_identifier_is_checked_before_the_base_address_is_looked_at() {
    let c = WalrusClient::new("mailto:someone@example.com", "https://p.example.com").unwrap();
    assert_eq!(
        c.read_blob_by_id_request("a b"),
        Err(WalrusError::InvalidParameter("Not a path segment: a b".to_string()))
    );
}

#[test]
fn a_read_fails_with_invalid_url_when_the_base_cannot_be_a_base() {
    let c = WalrusClient::new("data:text/plain,hello", "https://p.example.com").unwrap();
    match c.read_blob_by_id_request("abc") {
        Err(WalrusError::InvalidUrl(msg)) => {
            assert_eq!(msg, "Failed to build URL: relative URL with a cannot-be-a-base base");
        }
        other => panic!("expected InvalidUrl, got {:?}", other),
    }
    assert!(matches!(c.read_blob_by_object_id_request("abc"), Err(WalrusError::InvalidUrl(_))));
    assert!(matches!(
        c.read_quilt_blob_by_patch_id_request("abc"),
        Err(WalrusError::InvalidUrl(_))
    ));
    assert!(matches!(
        c.read_quilt_blob_by_quilt_id_and_identifier_request("q", "f"),
        Err(WalrusError::InvalidUrl(_))
    ));
    assert!(matches!(c.get_blob_metadata_request("abc"), Err(WalrusError::InvalidUrl(_))));
}

#[test]
fn store_quilt_makes_one_part_for_each_file_in_order() {
    let files = vec![("a.txt", b"X".to_vec()), ("b.txt", b"YY".to_vec())];
    let request = client().store_quilt_request(files, None, Some(1), None, None, None).unwrap();
    assert_eq!(
        request,
        HttpRequest {
            method: Method::Put,
            url: "https://publisher.example.com/v1/quilts?epochs=1".to_string(),
            body: RequestBody::Multipart(vec![file_part("a.txt", b"X"), file_part("b.txt", b"YY")]),
        }
    );
}

#[test]
fn store_quilt_without_options_has_no_query() {
    let request =
        client().store_quilt_request(Vec::new(), None, None, None, None, None).unwrap();
    assert_eq!(request.url, "https://publisher.example.com/v1/quilts");
    assert_eq!(request.body, RequestBody::Multipart(Vec::new()));
}

#[test]
fn store_quilt_keeps_files_with_the_same_identifier() {
    let files = vec![("a", vec![1]), ("b", vec![2]), ("a", vec![3]), ("c", Vec::new())];
    let request = client().store_quilt_request(files, None, None, None, None, None).unwrap();
    assert_eq!(
        request.body,
        RequestBody::Multipart(vec![
            file_part("a", &[1]),
            file_part("b", &[2]),
            file_part("a", &[3]),
            file_part("c", &[]),
        ])
    );
}

#[test]
fn store_quilt_adds_the_metadata_as_one_more_part() {
    let files = vec![("a.txt", b"X".to_vec()), ("b.txt", b"Y".to_vec())];
    let metadata = vec![
        QuiltMetadata {
            identifier: "a.txt".to_string(),
            tags: vec![("kind".to_string(), "text".to_string())],
        },
        QuiltMetadata { identifier: "b.txt".to_string(), tags: Vec::new() },
    ];
    let request = client()
        .store_quilt_request(files, Some(metadata), None, Some(true), None, None)
        .unwrap();
    assert_eq!(request.url, "https://publisher.example.com/v1/quilts?deletable=true");
    assert_eq!(
        request.body,
        RequestBody::Multipart(vec![
            file_part("a.txt", b"X"),
            file_part("b.txt", b"Y"),
            FormPart {
                name: "_metadata".to_string(),
                content: PartContent::Text(
                    "[{\"identifier\":\"a.txt\",\"tags\":{\"kind\":\"text\"}},{\"identifier\":\"b.txt\",\"tags\":{}}]"
                        .to_string()
                ),
            },
        ])
    );
}

#[test]
fn store_quilt_tells_empty_metadata_from_no_metadata() {
    let with_empty = client()
        .store_quilt_request(vec![("a", vec![1])], Some(Vec::new()), None, None, None, None)
        .unwrap();
    assert_eq!(
        with_empty.body,
        RequestBody::Multipart(vec![
            file_part("a", &[1]),
            FormPart { name: "_metadata".to_string(), content: PartContent::Text("[]".to_string()) },
        ])
    );
    let without = client()
        .store_quilt_request(vec![("a", vec![1])], None, None, None, None, None)
        .unwrap();
    assert_eq!(without.body, RequestBody::Multipart(vec![file_part("a", &[1])]));
}

#[test]
fn store_quilt_escapes_metadata_text_as_json() {
    let metadata = vec![QuiltMetadata {
        identifier: "a \"quoted\"\n name".to_string(),
        tags: vec![
            ("z".to_string(), "last".to_string()),
            ("a".to_string(), "tab\there".to_string()),
        ],
    }];
    let request = client()
        .store_quilt_request(Vec::new(), Some(metadata), None, None, None, None)
        .unwrap();
    assert_eq!(
        request.body,
        RequestBody::Multipart(vec![FormPart {
            name: "_metadata".to_string(),
            content: PartContent::Text(
                "[{\"identifier\":\"a \\\"quoted\\\"\\n name\",\"tags\":{\"a\":\"tab\\there\",\"z\":\"last\"}}]"
                    .to_string()
            ),
        }])
    );
}

#[test]
fn store_quilt_refuses_a_tag_name_that_is_given_twice() {
    let repeated = || QuiltMetadata {
        identifier: "a".to_string(),
        tags: vec![
            ("k".to_string(), "first".to_string()),
            ("j".to_string(), "other".to_string()),
            ("k".to_string(), "last".to_string()),
        ],
    };
    let distinct = || QuiltMetadata {
        identifier: "b".to_string(),
        tags: vec![("k".to_string(), "v".to_string()), ("K".to_string(), "v".to_string())],
    };
    assert!(!repeated().has_distinct_tags());
    assert!(distinct().has_distinct_tags());
    assert!(QuiltMetadata { identifier: String::new(), tags: Vec::new() }.has_distinct_tags());
    assert_eq!(
        client().store_quilt_request(
            vec![("a", vec![1])],
            Some(vec![distinct(), repeated()]),
            None,
            None,
            None,
            None
        ),
        Err(WalrusError::InvalidParameter("A tag name is given twice".to_string()))
    );
    let request = client()
        .store_quilt_request(Vec::new(), Some(vec![distinct(), distinct()]), None, None, None, None)
        .unwrap();
    assert_eq!(
        request.body,
        RequestBody::Multipart(vec![FormPart {
            name: "_metadata".to_string(),
            content: PartContent::Text(
                "[{\"identifier\":\"b\",\"tags\":{\"K\":\"v\",\"k\":\"v\"}},{\"identifier\":\"b\",\"tags\":{\"K\":\"v\",\"k\":\"v\"}}]"
                    .to_string()
            ),
        }])
    );
}

#[test]
fn store_quilt_fails_with_invalid_url_before_it_looks_at_the_files() {
    let c = WalrusClient::new("https://a.example.com", "mailto:someone@example.com").unwrap();
    let result = c.store_quilt_request(vec![("a", vec![1])], Some(Vec::new()), None, None, None, None);
    assert!(matches!(result, Err(WalrusError::InvalidUrl(_))));
}

#[test]
fn json_text_is_written_by_the_json_codec() {
    let value = Json::Object(vec![
        ("b".to_string(), Json::Array(vec![Json::Null, Json::Bool(true), Json::Number("12".to_string())])),
        ("a".to_string(), Json::Text("é\\".to_string())),
    ]);
    assert_eq!(value.to_text().unwrap(), "{\"a\":\"é\\\\\",\"b\":[null,true,12]}");
    assert_eq!(Json::Number("-3".to_string()).to_text().unwrap(), "-3");
    assert_eq!(Json::Number("1.5".to_string()).to_text().unwrap(), "1.5");
    assert_eq!(Json::Text("12".to_string()).to_text().unwrap(), "\"12\"");
}

#[test]
fn json_text_fails_with_encode_error_for_a_number_that_is_none() {
    let value = Json::Array(vec![Json::Number("twelve".to_string())]);
    assert!(matches!(value.to_text(), Err(WalrusError::EncodeError(_))));
    assert!(matches!(Json::Number(String::new()).to_text(), Err(WalrusError::EncodeError(_))));
}
