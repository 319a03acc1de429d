use walrus_rs::WalrusClient;
use walrus_rs::WalrusError;

#[test]
fn test_walrus_client_new() {
    let aggregator_url = "https://aggregator.testnet.walrus.atalma.io/";
    let publisher_url = "https://publisher.walrus-01.tududes.com/";
    let client = WalrusClient::new(aggregator_url, publisher_url).unwrap();

    assert_eq!(
        client.aggregator_url().as_str(),
        "https://aggregator.testnet.walrus.atalma.io/"
    );
    assert_eq!(
        client.publisher_url().as_str(),
        "https://publisher.walrus-01.tududes.com/"
    );
}

#[test]
fn test_walrus_client_invalid_url() {
    let aggregator_url = "invalid-url";
    let publisher_url = "invalid-url";
    let client_result = WalrusClient::new(aggregator_url, publisher_url);
    assert!(client_result.is_err());
    if let Err(WalrusError::InvalidUrl(msg)) = client_result {
        assert!(msg.contains("Invalid aggregator URL"));
    } else {
        panic!("Expected InvalidUrl error");
    }
}

#[test]
fn new_normalises_an_address_without_a_path() {
    let client = WalrusClient::new(
        "https://aggregator.testnet.walrus.atalma.io",
        "HTTPS://Publisher.Walrus-01.tududes.com:443",
    )
    .unwrap();
    assert_eq!(
        client.aggregator_url().as_str(),
        "https://aggregator.testnet.walrus.atalma.io/"
    );
    assert_eq!(
        client.publisher_url().as_str(),
        "https://publisher.walrus-01.tududes.com/"
    );
}

#[test]
fn new_names_the_publisher_when_only_that_address_is_malformed() {
    let result = WalrusClient::new("https://aggregator.example.com/", "not a url");
    match result {
        Err(WalrusError::InvalidUrl(msg)) => {
            assert_eq!(msg, "Invalid publisher URL: relative URL without a base");
        }
        other => panic!("expected InvalidUrl, got {:?}", other),
    }
}

#[test]
fn new_names_the_aggregator_when_only_that_address_is_malformed() {
    let result = WalrusClient::new("", "https://publisher.example.com/");
    match result {
        Err(WalrusError::InvalidUrl(msg)) => {
            assert_eq!(msg, "Invalid aggregator URL: relative URL without a base");
        }
        other => panic!("expected InvalidUrl, got {:?}", other),
    }
}

#[test]
fn new_names_the_aggregator_when_both_addresses_are_malformed() {
    let result = WalrusClient::new("http://[", "also bad");
    match result {
        Err(WalrusError::InvalidUrl(msg)) => {
            assert!(msg.starts_with("Invalid aggregator URL: "));
            assert!(!msg.contains("publisher"));
        }
        other => panic!("expected InvalidUrl, got {:?}", other),
    }
}

#[test]
fn error_messages_say_the_kind_and_the_details() {
    assert_eq!(
        WalrusError::HttpRequest("connection refused".to_string()).message(),
        "HTTP request failed: connection refused"
    );
    assert_eq!(
        WalrusError::InvalidUrl("empty host".to_string()).message(),
        "Invalid URL: empty host"
    );
    assert_eq!(
        WalrusError::ApiError(404, "no such blob".to_string()).message(),
        "API error: 404 - no such blob"
    );
    assert_eq!(
        WalrusError::ParseError("bad".to_string()).message(),
        "Failed to parse response: bad"
    );
    assert_eq!(
        WalrusError::EncodeError("bad".to_string()).message(),
        "Failed to encode request: bad"
    );
    assert_eq!(
        WalrusError::InvalidParameter("bad".to_string()).message(),
        "Invalid parameter: bad"
    );
    assert_eq!(
        WalrusError::Unknown("what".to_string()).message(),
        "Unknown error: what"
    );
    assert_eq!(
        WalrusError::Other("runtime".to_string()).message(),
        "Other error: runtime"
    );
}
