//! A client for a content-addressed blob store that is reached over HTTP
//! through two services: a publisher, which takes writes, and an aggregator,
//! which serves reads.
//!
//! The crate holds everything about one call that can be decided without
//! touching the network: which request to send, and what a reply means. A
//! caller builds a request with one of the `*_request` methods of
//! [`WalrusClient`], has a transport of its choice perform it, and hands the
//! reply to the matching `*_response` function.

pub mod client;
pub mod decode;
pub mod endpoint;
pub mod error;
pub mod headers;
pub mod http;
pub mod json;
pub mod models;
pub mod quilt;
pub mod text;

pub use client::WalrusClient;
pub use error::WalrusError;
pub use http::FormPart;
pub use http::HttpReply;
pub use http::HttpRequest;
pub use http::HttpResponse;
pub use http::Method;
pub use http::PartContent;
pub use http::RequestBody;
pub use json::Json;
pub use models::AlreadyCertified;
pub use models::BlobMetadata;
pub use models::BlobObject;
pub use models::BlobStoreResult;
pub use models::Event;
pub use models::NewlyCreated;
pub use models::QuiltMetadata;
pub use models::QuiltStoreResponse;
pub use models::RegisterFromScratch;
pub use models::ResourceOperation;
pub use models::StorageInfo;
pub use models::StoredQuiltBlob;
