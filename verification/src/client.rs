//! The client: two base addresses, and for each operation the request to
//! send and the meaning of the reply.

use vstd::prelude::*;
use crate::decode::blob_store_result_of;
use crate::decode::decode_blob_store_result;
use crate::decode::decode_quilt_store_response;
use crate::decode::quilt_store_response_of;
use crate::endpoint::as_directory;
use crate::endpoint::build_url;
use crate::endpoint::check_path_segment;
use crate::endpoint::is_path_segment;
use crate::endpoint::parse_url;
use crate::endpoint::request_url;
use crate::endpoint::url_parse;
use crate::endpoint::BuildError;
use crate::endpoint::UrlFault;
use crate::error::outcome;
use crate::error::ErrorView;
use crate::error::WalrusError;
use crate::headers::blob_metadata_of;
use crate::headers::decode_blob_metadata;
use crate::headers::header_values;
use crate::http::accept;
use crate::http::refusal;
use crate::http::HttpReply;
use crate::http::HttpRequest;
use crate::http::HttpRequestView;
use crate::http::Method;
use crate::http::RequestBody;
use crate::http::RequestBodyView;
use crate::json::json_parse;
use crate::json::parse_json;
use crate::json::Json;
use crate::json::JsonView;
use crate::models::BlobMetadata;
use crate::models::BlobMetadataView;
use crate::models::BlobStoreResult;
use crate::models::BlobStoreResultView;
use crate::models::QuiltMetadata;
use crate::models::QuiltMetadataView;
use crate::models::QuiltStoreResponse;
use crate::models::QuiltStoreResponseView;
use crate::quilt::build_quilt_form;
use crate::quilt::optional_metadata_views;
use crate::quilt::quilt_form_of;
use crate::text::bool_text;
use crate::text::bool_text_spec;
use crate::text::decimal_text;
use crate::text::join_text;
use crate::text::pair_texts;
use crate::text::u64_text;

verus! {

/// A client of the blob store. It holds the base address of the aggregator,
/// which serves reads, and that of the publisher, which takes writes, each
/// in the normalised form in which it was read.
#[derive(Debug, PartialEq, Eq)]
pub struct WalrusClient {
    aggregator_url: String,
    publisher_url: String,
}

/// A client as a mathematical value: its two addresses as texts.
pub struct WalrusClientView {
    pub aggregator_url: Seq<char>,
    pub publisher_url: Seq<char>,
}

impl View for WalrusClient {
    type V = WalrusClientView;

    closed spec fn view(&self) -> WalrusClientView {
        WalrusClientView {
            aggregator_url: self.aggregator_url@,
            publisher_url: self.publisher_url@,
        }
    }
}

/// The client that two addresses give, or the error that names the first
/// of the two that is no URL.
pub open spec fn new_client(aggregator_url: Seq<char>, publisher_url: Seq<char>) -> Result<
    WalrusClientView,
    ErrorView,
> {
    match url_parse(aggregator_url) {
        Err(words) => Err(ErrorView::InvalidUrl("Invalid aggregator URL: "@ + words)),
        Ok(aggregator) => match url_parse(publisher_url) {
            Err(words) => Err(ErrorView::InvalidUrl("Invalid publisher URL: "@ + words)),
            Ok(publisher) => Ok(
                WalrusClientView { aggregator_url: aggregator, publisher_url: publisher },
            ),
        },
    }
}

/// The query parameter `name`, where a value is given for it.
pub open spec fn optional_pair(name: Seq<char>, value: Option<Seq<char>>) -> Seq<
    (Seq<char>, Seq<char>),
> {
    match value {
        Some(text) => seq![(name, text)],
        None => Seq::empty(),
    }
}

/// The query parameters of a store call: `epochs`, `deletable`,
/// `permanent` and `send_object_to`, in this order, each only where the
/// caller gave it.
pub open spec fn store_query(
    epochs: Option<u64>,
    deletable: Option<bool>,
    permanent: Option<bool>,
    send_object_to: Option<Seq<char>>,
) -> Seq<(Seq<char>, Seq<char>)> {
    optional_pair(
        "epochs"@,
        match epochs {
            Some(n) => Some(decimal_text(n as nat)),
            None => None,
        },
    ) + optional_pair(
        "deletable"@,
        match deletable {
            Some(b) => Some(bool_text_spec(b)),
            None => None,
        },
    ) + optional_pair(
        "permanent"@,
        match permanent {
            Some(b) => Some(bool_text_spec(b)),
            None => None,
        },
    ) + optional_pair("send_object_to"@, send_object_to)
}

/// The view of an optional text.
pub open spec fn optional_text(text: Option<&str>) -> Option<Seq<char>> {
    match text {
        Some(t) => Some(t@),
        None => None,
    }
}

/// The error of a call for which no URL could be built.
pub open spec fn url_error(fault: UrlFault) -> ErrorView {
    match fault {
        UrlFault::Join(words) => ErrorView::InvalidUrl("Failed to build URL: "@ + words),
        UrlFault::Query(words) => ErrorView::InvalidUrl("Failed to build URL: "@ + words),
        UrlFault::TooLong => ErrorView::InvalidParameter("A query parameter is too long"@),
    }
}

/// The error for an identifier that cannot stand as one segment of a
/// path.
pub open spec fn segment_error(identifier: Seq<char>) -> ErrorView {
    ErrorView::InvalidParameter("Not a path segment: "@ + identifier)
}

/// A request that names something by an identifier: the identifier must be
/// able to stand as one segment of a path, as it is; where it cannot, it is
/// refused and there is no request.
pub open spec fn with_segment(identifier: Seq<char>, request: Result<HttpRequestView, ErrorView>)
    -> Result<HttpRequestView, ErrorView> {
    if is_path_segment(identifier) {
        request
    } else {
        Err(segment_error(identifier))
    }
}

/// The request that stores a blob: a `PUT` to `v1/blobs` under the
/// publisher, with the query parameters given and the payload as the body.
pub open spec fn store_blob_request_of(
    client: WalrusClientView,
    data: Seq<u8>,
    query: Seq<(Seq<char>, Seq<char>)>,
) -> Result<HttpRequestView, ErrorView> {
    match request_url(client.publisher_url, "v1/blobs"@, query) {
        Ok(url) => Ok(
            HttpRequestView { method: Method::Put, url, body: RequestBodyView::Bytes(data) },
        ),
        Err(fault) => Err(url_error(fault)),
    }
}

/// The request that stores a quilt: a `PUT` to `v1/quilts` under the
/// publisher, with the query parameters given and the form of the quilt as
/// the body.
pub open spec fn store_quilt_request_of(
    client: WalrusClientView,
    files: Seq<(&str, Vec<u8>)>,
    metadata: Option<Seq<QuiltMetadataView>>,
    query: Seq<(Seq<char>, Seq<char>)>,
) -> Result<HttpRequestView, ErrorView> {
    match request_url(client.publisher_url, "v1/quilts"@, query) {
        Ok(url) => match quilt_form_of(files, metadata) {
            Ok(parts) => Ok(
                HttpRequestView {
                    method: Method::Put,
                    url,
                    body: RequestBodyView::Multipart(parts),
                },
            ),
            Err(e) => Err(e),
        },
        Err(fault) => Err(url_error(fault)),
    }
}

/// A request without a body to `path` under the aggregator. No query is
/// added.
pub open spec fn aggregator_request_of(client: WalrusClientView, method: Method, path: Seq<char>)
    -> Result<HttpRequestView, ErrorView> {
    match request_url(client.aggregator_url, path, Seq::empty()) {
        Ok(url) => Ok(HttpRequestView { method, url, body: RequestBodyView::Empty }),
        Err(fault) => Err(url_error(fault)),
    }
}

/// The path under which a blob is read by its content ID.
pub open spec fn blob_path(blob_id: Seq<char>) -> Seq<char> {
    "v1/blobs/"@ + blob_id
}

/// The path under which a blob is read by the ID of its object.
pub open spec fn object_path(object_id: Seq<char>) -> Seq<char> {
    "v1/blobs/by-object-id/"@ + object_id
}

/// The path under which a file of a quilt is read by its patch ID.
pub open spec fn quilt_patch_path(quilt_patch_id: Seq<char>) -> Seq<char> {
    "v1/blobs/by-quilt-patch-id/"@ + quilt_patch_id
}

/// The path under which a file of a quilt is read by the ID of the quilt
/// and the identifier of the file.
pub open spec fn quilt_file_path(quilt_id: Seq<char>, identifier: Seq<char>) -> Seq<char> {
    "v1/blobs/by-quilt-id/"@ + quilt_id + "/"@ + identifier
}

/// The JSON document that a reply carries; or the error that the reply
/// stands for: its refusal, or a `ParseError` that begins with
/// `Failed to parse`, the name of what was expected, and a colon, where
/// the body could not be read or is no JSON.
pub open spec fn body_json_of(reply: HttpReply, what: Seq<char>) -> Result<JsonView, ErrorView> {
    match refusal(reply) {
        Some(e) => Err(e),
        None => match reply->Response_0.body {
            Err(words) => Err(
                ErrorView::ParseError("Failed to parse "@ + what + ": "@ + words@),
            ),
            Ok(bytes) => match json_parse(bytes@) {
                Err(words) => Err(
                    ErrorView::ParseError("Failed to parse "@ + what + ": "@ + words),
                ),
                Ok(json) => Ok(json),
            },
        },
    }
}

/// The bytes that a reply carries; or the error that the reply stands
/// for: its refusal, or a `ParseError` that begins with `prefix` where the
/// body could not be read.
pub open spec fn body_bytes_of(reply: HttpReply, prefix: Seq<char>) -> Result<
    Seq<u8>,
    ErrorView,
> {
    match refusal(reply) {
        Some(e) => Err(e),
        None => match reply->Response_0.body {
            Err(words) => Err(ErrorView::ParseError(prefix + words@)),
            Ok(bytes) => Ok(bytes@),
        },
    }
}

/// What a document means that was expected to hold `what`: the value that
/// it stands for; or a `ParseError` that begins with `Failed to parse`,
/// the name of what was expected, and a colon, and goes on with the words
/// that say what is wrong with the document.
pub open spec fn expected_as<V>(what: Seq<char>, value: Result<V, Seq<char>>) -> Result<
    V,
    ErrorView,
> {
    match value {
        Ok(v) => Ok(v),
        Err(words) => Err(ErrorView::ParseError("Failed to parse "@ + what + ": "@ + words)),
    }
}

/// What the reply to a store call for a blob means.
pub open spec fn store_blob_response_of(reply: HttpReply) -> Result<
    BlobStoreResultView,
    ErrorView,
> {
    match body_json_of(reply, "BlobStoreResult"@) {
        Err(e) => Err(e),
        Ok(json) => expected_as("BlobStoreResult"@, blob_store_result_of(json)),
    }
}

/// What the reply to a store call for a quilt means.
pub open spec fn store_quilt_response_of(reply: HttpReply) -> Result<
    QuiltStoreResponseView,
    ErrorView,
> {
    match body_json_of(reply, "QuiltStoreResponse"@) {
        Err(e) => Err(e),
        Ok(json) => expected_as("QuiltStoreResponse"@, quilt_store_response_of(json)),
    }
}

/// What the reply to a request for the metadata of a blob means.
pub open spec fn blob_metadata_response_of(reply: HttpReply) -> Result<
    BlobMetadataView,
    ErrorView,
> {
    match refusal(reply) {
        Some(e) => Err(e),
        None => blob_metadata_of(header_values(reply->Response_0.headers)),
    }
}

/// Turns what went wrong in building a URL into the error of a call.
fn build_error(e: BuildError) -> (r: WalrusError)
    ensures
        r@ == url_error(e@),
{
    match e {
        BuildError::Join(words) => WalrusError::InvalidUrl(
            join_text("Failed to build URL: ", words.as_str()),
        ),
        BuildError::Query(words) => WalrusError::InvalidUrl(
            join_text("Failed to build URL: ", words.as_str()),
        ),
        BuildError::TooLong => WalrusError::InvalidParameter(
            String::from_str("A query parameter is too long"),
        ),
    }
}

/// The error for an identifier that cannot stand as one segment of a
/// path.
fn refuse_segment(identifier: &str) -> (r: WalrusError)
    ensures
        r@ == segment_error(identifier@),
{
    WalrusError::InvalidParameter(join_text("Not a path segment: ", identifier))
}

/// Collects the query parameters of a store call.
fn store_query_pairs(
    epochs: Option<u64>,
    deletable: Option<bool>,
    permanent: Option<bool>,
    send_object_to: Option<&str>,
) -> (r: Vec<(String, String)>)
    ensures
        pair_texts(r@) == store_query(epochs, deletable, permanent, optional_text(send_object_to)),
{
    let mut pairs: Vec<(String, String)> = Vec::new();
    if let Some(n) = epochs {
        pairs.push((String::from_str("epochs"), u64_text(n)));
    }
    if let Some(b) = deletable {
        pairs.push((String::from_str("deletable"), String::from_str(bool_text(b))));
    }
    if let Some(b) = permanent {
        pairs.push((String::from_str("permanent"), String::from_str(bool_text(b))));
    }
    if let Some(to) = send_object_to {
        pairs.push((String::from_str("send_object_to"), String::from_str(to)));
    }
    pairs
}

/// Reads the JSON document that a reply carries.
fn body_json(reply: HttpReply, what: &str) -> (r: Result<Json, WalrusError>)
    ensures
        outcome(r) == body_json_of(reply, what@),
{
    let response = accept(reply)?;
    let prefix = join_text("Failed to parse ", what).concat(": ");
    match response.body {
        Err(words) => Err(WalrusError::ParseError(prefix.concat(words.as_str()))),
        Ok(bytes) => match parse_json(bytes.as_slice()) {
            Err(words) => Err(WalrusError::ParseError(prefix.concat(words.as_str()))),
            Ok(json) => Ok(json),
        },
    }
}

/// Puts before the words of a decoder what it was that could not be
/// decoded. Any other error stays as it is.
fn failed_to_parse(what: &str, e: WalrusError) -> (r: WalrusError)
    ensures
        r@ == (match e@ {
            ErrorView::ParseError(words) => ErrorView::ParseError(
                "Failed to parse "@ + what@ + ": "@ + words,
            ),
            other => other,
        }),
{
    match e {
        WalrusError::ParseError(words) => WalrusError::ParseError(
            join_text("Failed to parse ", what).concat(": ").concat(words.as_str()),
        ),
        other => other,
    }
}

/// Hands out the bytes that a reply carries.
fn body_bytes(reply: HttpReply, prefix: &str) -> (r: Result<Vec<u8>, WalrusError>)
    ensures
        outcome(r) == body_bytes_of(reply, prefix@),
{
    let response = accept(reply)?;
    match response.body {
        Err(words) => Err(WalrusError::ParseError(join_text(prefix, words.as_str()))),
        Ok(bytes) => Ok(bytes),
    }
}

impl WalrusClient {
    /// Makes a client for the two services. Each address is read as a URL
    /// and kept in its normalised form. Where one is no URL, the error is
    /// `InvalidUrl`, and its message says which of the two it was, the
    /// aggregator's first.
    pub fn new(aggregator_url: &str, publisher_url: &str) -> (r: Result<Self, WalrusError>)
        ensures
            outcome(r) == new_client(aggregator_url@, publisher_url@),
    {
        let aggregator = match parse_url(aggregator_url) {
            Ok(url) => url,
            Err(words) => {
                return Err(
                    WalrusError::InvalidUrl(join_text("Invalid aggregator URL: ", words.as_str())),
                );
            },
        };
        let publisher = match parse_url(publisher_url) {
            Ok(url) => url,
            Err(words) => {
                return Err(
                    WalrusError::InvalidUrl(join_text("Invalid publisher URL: ", words.as_str())),
                );
            },
        };
        Ok(WalrusClient { aggregator_url: aggregator, publisher_url: publisher })
    }

    /// The base address of the aggregator.
    pub fn aggregator_url(&self) -> (r: &String)
        ensures
            r@ == self@.aggregator_url,
    {
        &self.aggregator_url
    }

    /// The base address of the publisher.
    pub fn publisher_url(&self) -> (r: &String)
        ensures
            r@ == self@.publisher_url,
    {
        &self.publisher_url
    }

    /// The request that stores `data` as a blob. Each of the four optional
    /// arguments becomes a query parameter where it is given, and is left
    /// out of the URL where it is not.
    pub fn store_blob_request(
        &self,
        data: Vec<u8>,
        epochs: Option<u64>,
        deletable: Option<bool>,
        permanent: Option<bool>,
        send_object_to: Option<&str>,
    ) -> (r: Result<HttpRequest, WalrusError>)
        ensures
            outcome(r) == store_blob_request_of(
                self@,
                data@,
                store_query(epochs, deletable, permanent, optional_text(send_object_to)),
            ),
    {
        let pairs = store_query_pairs(epochs, deletable, permanent, send_object_to);
        match build_url(self.publisher_url.as_str(), "v1/blobs", &pairs) {
            Ok(url) => Ok(HttpRequest { method: Method::Put, url, body: RequestBody::Bytes(data) }),
            Err(e) => Err(build_error(e)),
        }
    }

    /// The request that stores the files as one quilt. Each file becomes
    /// one part of a multipart form, named by its identifier; metadata,
    /// where given, becomes one more part named `_metadata`.
    pub fn store_quilt_request(
        &self,
        files: Vec<(&str, Vec<u8>)>,
        metadata: Option<Vec<QuiltMetadata>>,
        epochs: Option<u64>,
        deletable: Option<bool>,
        permanent: Option<bool>,
        send_object_to: Option<&str>,
    ) -> (r: Result<HttpRequest, WalrusError>)
        ensures
            outcome(r) == store_quilt_request_of(
                self@,
                files@,
                optional_metadata_views(metadata),
                store_query(epochs, deletable, permanent, optional_text(send_object_to)),
            ),
    {
        let pairs = store_query_pairs(epochs, deletable, permanent, send_object_to);
        let url = match build_url(self.publisher_url.as_str(), "v1/quilts", &pairs) {
            Ok(url) => url,
            Err(e) => {
                return Err(build_error(e));
            },
        };
        let parts = build_quilt_form(files, metadata)?;
        Ok(HttpRequest { method: Method::Put, url, body: RequestBody::Multipart(parts) })
    }

    /// A request without a body to `path` under the aggregator.
    fn aggregator_request(&self, method: Method, path: String) -> (r: Result<
        HttpRequest,
        WalrusError,
    >)
        ensures
            outcome(r) == aggregator_request_of(self@, method, path@),
    {
        let pairs: Vec<(String, String)> = Vec::new();
        match build_url(self.aggregator_url.as_str(), path.as_str(), &pairs) {
            Ok(url) => Ok(HttpRequest { method, url, body: RequestBody::Empty }),
            Err(e) => Err(build_error(e)),
        }
    }

    /// The request that reads a blob by its content ID. An ID that cannot
    /// stand as one segment of a path is refused with `InvalidParameter`.
    pub fn read_blob_by_id_request(&self, blob_id: &str) -> (r: Result<HttpRequest, WalrusError>)
        ensures
            outcome(r) == with_segment(
                blob_id@,
                aggregator_request_of(self@, Method::Get, blob_path(blob_id@)),
            ),
    {
        if !check_path_segment(blob_id) {
            return Err(refuse_segment(blob_id));
        }
        self.aggregator_request(Method::Get, join_text("v1/blobs/", blob_id))
    }

    /// The request that reads a blob by the ID of its object. An ID that
    /// cannot stand as one segment of a path is refused with
    /// `InvalidParameter`.
    pub fn read_blob_by_object_id_request(&self, object_id: &str) -> (r: Result<
        HttpRequest,
        WalrusError,
    >)
        ensures
            outcome(r) == with_segment(
                object_id@,
                aggregator_request_of(self@, Method::Get, object_path(object_id@)),
            ),
    {
        if !check_path_segment(object_id) {
            return Err(refuse_segment(object_id));
        }
        self.aggregator_request(Method::Get, join_text("v1/blobs/by-object-id/", object_id))
    }

    /// The request that reads one file of a quilt by its patch ID. An ID
    /// that cannot stand as one segment of a path is refused with
    /// `InvalidParameter`.
    pub fn read_quilt_blob_by_patch_id_request(&self, quilt_patch_id: &str) -> (r: Result<
        HttpRequest,
        WalrusError,
    >)
        ensures
            outcome(r) == with_segment(
                quilt_patch_id@,
                aggregator_request_of(self@, Method::Get, quilt_patch_path(quilt_patch_id@)),
            ),
    {
        if !check_path_segment(quilt_patch_id) {
            return Err(refuse_segment(quilt_patch_id));
        }
        self.aggregator_request(
            Method::Get,
            join_text("v1/blobs/by-quilt-patch-id/", quilt_patch_id),
        )
    }

    /// The request that reads one file of a quilt by the ID of the quilt
    /// and the identifier of the file. Each of the two must be able to
    /// stand as one segment of a path; the first that cannot is refused
    /// with `InvalidParameter`.
    pub fn read_quilt_blob_by_quilt_id_and_identifier_request(
        &self,
        quilt_id: &str,
        identifier: &str,
    ) -> (r: Result<HttpRequest, WalrusError>)
        ensures
            outcome(r) == with_segment(
                quilt_id@,
                with_segment(
                    identifier@,
                    aggregator_request_of(
                        self@,
                        Method::Get,
                        quilt_file_path(quilt_id@, identifier@),
                    ),
                ),
            ),
    {
        if !check_path_segment(quilt_id) {
            return Err(refuse_segment(quilt_id));
        }
        if !check_path_segment(identifier) {
            return Err(refuse_segment(identifier));
        }
        let path = join_text("v1/blobs/by-quilt-id/", quilt_id).concat("/").concat(identifier);
        self.aggregator_request(Method::Get, path)
    }

    /// The request that asks for the headers of a blob, without its body.
    /// An ID that cannot stand as one segment of a path is refused with
    /// `InvalidParameter`.
    pub fn get_blob_metadata_request(&self, blob_id: &str) -> (r: Result<HttpRequest, WalrusError>)
        ensures
            outcome(r) == with_segment(
                blob_id@,
                aggregator_request_of(self@, Method::Head, blob_path(blob_id@)),
            ),
    {
        if !check_path_segment(blob_id) {
            return Err(refuse_segment(blob_id));
        }
        self.aggregator_request(Method::Head, join_text("v1/blobs/", blob_id))
    }

    /// Reads the reply to a store call for a blob.
    pub fn store_blob_response(reply: HttpReply) -> (r: Result<BlobStoreResult, WalrusError>)
        ensures
            outcome(r) == store_blob_response_of(reply),
            r matches Ok(result) ==> result@.holds_one(),
    {
        let json = body_json(reply, "BlobStoreResult")?;
        match decode_blob_store_result(&json) {
            Ok(result) => Ok(result),
            Err(e) => Err(failed_to_parse("BlobStoreResult", e)),
        }
    }

    /// Reads the reply to a store call for a quilt.
    pub fn store_quilt_response(reply: HttpReply) -> (r: Result<QuiltStoreResponse, WalrusError>)
        ensures
            outcome(r) == store_quilt_response_of(reply),
    {
        let json = body_json(reply, "QuiltStoreResponse")?;
        match decode_quilt_store_response(&json) {
            Ok(response) => Ok(response),
            Err(e) => Err(failed_to_parse("QuiltStoreResponse", e)),
        }
    }

    /// Reads the reply to a request for a blob: the bytes of the body, as
    /// they came.
    pub fn read_blob_response(reply: HttpReply) -> (r: Result<Vec<u8>, WalrusError>)
        ensures
            outcome(r) == body_bytes_of(reply, "Failed to read blob bytes: "@),
    {
        body_bytes(reply, "Failed to read blob bytes: ")
    }

    /// Reads the reply to a request for a file of a quilt: the bytes of the
    /// body, as they came.
    pub fn read_quilt_blob_response(reply: HttpReply) -> (r: Result<Vec<u8>, WalrusError>)
        ensures
            outcome(r) == body_bytes_of(reply, "Failed to read quilt blob bytes: "@),
    {
        body_bytes(reply, "Failed to read quilt blob bytes: ")
    }

    /// Reads the reply to a request for the metadata of a blob.
    pub fn get_blob_metadata_response(reply: HttpReply) -> (r: Result<BlobMetadata, WalrusError>)
        ensures
            outcome(r) == blob_metadata_response_of(reply),
    {
        let response = accept(reply)?;
        decode_blob_metadata(&response.headers)
    }
}

/// Two addresses that are both URLs give a client, and the client holds
/// each of them in the normalised form in which it was read.
pub proof fn lemma_valid_addresses_give_client(aggregator_url: Seq<char>, publisher_url: Seq<char>)
    requires
        url_parse(aggregator_url) is Ok,
        url_parse(publisher_url) is Ok,
    ensures
        new_client(aggregator_url, publisher_url) == Ok::<WalrusClientView, ErrorView>(
            WalrusClientView {
                aggregator_url: url_parse(aggregator_url)->Ok_0,
                publisher_url: url_parse(publisher_url)->Ok_0,
            },
        ),
{
}

/// An address that is no URL gives no client. The error is `InvalidUrl`,
/// and its message begins with the name of the address that was refused:
/// the aggregator's where that one is no URL, the publisher's where only
/// that one is none.
pub proof fn lemma_malformed_address_is_named(aggregator_url: Seq<char>, publisher_url: Seq<char>)
    requires
        url_parse(aggregator_url) is Err || url_parse(publisher_url) is Err,
    ensures
        new_client(aggregator_url, publisher_url) matches Err(ErrorView::InvalidUrl(message)) && (
        if url_parse(aggregator_url) is Err {
            "Invalid aggregator URL: "@.is_prefix_of(message)
        } else {
            "Invalid publisher URL: "@.is_prefix_of(message)
        }),
{
}

/// A store call without optional arguments has no query parameters, and
/// the URL of its request is the path resolved against the publisher's
/// address as a directory, with no query added to it.
pub proof fn lemma_no_options_no_query(client: WalrusClientView, data: Seq<u8>)
    ensures
        store_query(None, None, None, None) == Seq::<(Seq<char>, Seq<char>)>::empty(),
        match crate::endpoint::url_join(as_directory(client.publisher_url), "v1/blobs"@) {
            Ok(url) => store_blob_request_of(client, data, store_query(None, None, None, None))
                == Ok::<HttpRequestView, ErrorView>(
                HttpRequestView { method: Method::Put, url, body: RequestBodyView::Bytes(data) },
            ),
            Err(_) => store_blob_request_of(client, data, store_query(None, None, None, None))
                is Err,
        },
{
}

/// A store call with `deletable` set to true and nothing else has exactly
/// one query parameter, `deletable` with the value `true`; the URL of its
/// request is the resolved path with that one pair added to its query.
pub proof fn lemma_only_deletable(client: WalrusClientView, data: Seq<u8>)
    ensures
        store_query(None, Some(true), None, None) == seq![("deletable"@, "true"@)],
        match crate::endpoint::url_join(as_directory(client.publisher_url), "v1/blobs"@) {
            Ok(joined) => crate::endpoint::fits_query(joined) ==> (
            match crate::endpoint::url_append_pair(joined, "deletable"@, "true"@) {
                Ok(url) => store_blob_request_of(
                    client,
                    data,
                    store_query(None, Some(true), None, None),
                ) == Ok::<HttpRequestView, ErrorView>(
                    HttpRequestView {
                        method: Method::Put,
                        url,
                        body: RequestBodyView::Bytes(data),
                    },
                ),
                Err(_) => store_blob_request_of(
                    client,
                    data,
                    store_query(None, Some(true), None, None),
                ) is Err,
            }),
            Err(_) => store_blob_request_of(client, data, store_query(None, Some(true), None, None))
                is Err,
        },
{
    lemma_short_literals_fit();
    reveal_with_fuel(crate::endpoint::with_query, 3);
}

/// The name and the value of the pair `deletable=true` are short enough
/// to be added to a query.
proof fn lemma_short_literals_fit()
    ensures
        crate::endpoint::fits_query("deletable"@),
        crate::endpoint::fits_query("true"@),
{
    reveal_strlit("deletable");
    reveal_strlit("true");
    vstd::utf8::is_ascii_chars_encode_utf8("deletable"@);
    vstd::utf8::is_ascii_chars_encode_utf8("true"@);
}

/// An identifier that cannot stand as one segment of a path is refused
/// with `InvalidParameter` before any URL is built: whatever the request
/// would have been, there is none. One that can is not refused for being
/// an identifier.
pub proof fn lemma_identifier_is_checked(
    identifier: Seq<char>,
    request: Result<HttpRequestView, ErrorView>,
)
    ensures
        !is_path_segment(identifier) ==> with_segment(identifier, request) == Err::<
            HttpRequestView,
            ErrorView,
        >(ErrorView::InvalidParameter("Not a path segment: "@ + identifier)),
        is_path_segment(identifier) ==> with_segment(identifier, request) == request,
{
}

/// A response whose status is outside 200 to 299 means an `ApiError` with
/// that status to every operation, whatever its body or headers hold; no
/// other error takes its place.
pub proof fn lemma_refused_status_is_api_error(
    reply: HttpReply,
    what: Seq<char>,
    prefix: Seq<char>,
)
    requires
        reply is Response,
        !crate::http::is_success(reply->Response_0.status),
    ensures
        refusal(reply) == Some(
            ErrorView::ApiError(
                reply->Response_0.status,
                crate::http::error_message(reply->Response_0.body),
            ),
        ),
        body_json_of(reply, what) == Err::<JsonView, ErrorView>(refusal(reply)->Some_0),
        body_bytes_of(reply, prefix) == Err::<Seq<u8>, ErrorView>(refusal(reply)->Some_0),
        blob_metadata_response_of(reply) == Err::<BlobMetadataView, ErrorView>(
            refusal(reply)->Some_0,
        ),
        store_blob_response_of(reply) == Err::<BlobStoreResultView, ErrorView>(
            refusal(reply)->Some_0,
        ),
        store_quilt_response_of(reply) == Err::<QuiltStoreResponseView, ErrorView>(
            refusal(reply)->Some_0,
        ),
{
}

/// A response of success whose body is JSON that does not stand for the
/// expected value gives a `ParseError` whose message begins with what was
/// expected; it never gives a value.
pub proof fn lemma_malformed_document_is_named(reply: HttpReply)
    requires
        body_json_of(reply, "BlobStoreResult"@) matches Ok(json) && blob_store_result_of(
            json,
        ) is Err,
    ensures
        store_blob_response_of(reply) matches Err(ErrorView::ParseError(message))
            && "Failed to parse BlobStoreResult: "@.is_prefix_of(message),
{
    let words = blob_store_result_of(body_json_of(reply, "BlobStoreResult"@)->Ok_0)->Err_0;
    let head = "Failed to parse BlobStoreResult: "@;
    reveal_strlit("Failed to parse BlobStoreResult: ");
    reveal_strlit("Failed to parse ");
    reveal_strlit("BlobStoreResult");
    reveal_strlit(": ");
    assert("Failed to parse "@ + "BlobStoreResult"@ + ": "@ =~= head);
    assert(("Failed to parse "@ + "BlobStoreResult"@ + ": "@ + words).subrange(
        0,
        head.len() as int,
    ) =~= head);
}

/// The bytes of a blob pass through the client unchanged in both
/// directions: the request that stores a payload carries exactly the
/// payload, and a response of success whose body was read gives exactly
/// the bytes of that body.
pub proof fn lemma_blob_bytes_pass_unchanged(
    client: WalrusClientView,
    data: Seq<u8>,
    query: Seq<(Seq<char>, Seq<char>)>,
    reply: HttpReply,
    prefix: Seq<char>,
)
    requires
        reply is Response,
        crate::http::is_success(reply->Response_0.status),
        reply->Response_0.body is Ok,
    ensures
        store_blob_request_of(client, data, query) matches Ok(request) ==> request.body
            == RequestBodyView::Bytes(data),
        body_bytes_of(reply, prefix) == Ok::<Seq<u8>, ErrorView>(reply->Response_0.body->Ok_0@),
{
}

} // verus!
