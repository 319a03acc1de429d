//! Requests and replies as plain values: what a transport is asked to send,
//! and what it hands back.

use vstd::prelude::*;
use reqwest::header::HeaderMap;
use crate::error::ErrorView;
use crate::error::WalrusError;
use crate::text::lossy_text;
use crate::text::utf8_lossy;

verus! {

/// The method of a request.
#[derive(Debug, Clone, Copy, PartialEq, Eq, Structural)]
pub enum Method {
    Get,
    Put,
    Head,
}

/// What one part of a multipart form carries.
#[derive(Debug, PartialEq, Eq)]
pub enum PartContent {
    Bytes(Vec<u8>),
    Text(String),
}

/// The view of a `PartContent`.
pub enum PartContentView {
    Bytes(Seq<u8>),
    Text(Seq<char>),
}

impl View for PartContent {
    type V = PartContentView;

    open spec fn view(&self) -> PartContentView {
        match self {
            PartContent::Bytes(bytes) => PartContentView::Bytes(bytes@),
            PartContent::Text(text) => PartContentView::Text(text@),
        }
    }
}

/// One named part of a multipart form.
#[derive(Debug, PartialEq, Eq)]
pub struct FormPart {
    pub name: String,
    pub content: PartContent,
}

/// The view of a `FormPart`.
pub struct FormPartView {
    pub name: Seq<char>,
    pub content: PartContentView,
}

impl View for FormPart {
    type V = FormPartView;

    open spec fn view(&self) -> FormPartView {
        FormPartView { name: self.name@, content: self.content@ }
    }
}

/// The parts of a form, each taken by its view.
pub open spec fn part_views(parts: Seq<FormPart>) -> Seq<FormPartView> {
    Seq::new(parts.len(), |i: int| parts[i]@)
}

/// The body of a request.
#[derive(Debug, PartialEq, Eq)]
pub enum RequestBody {
    /// No body.
    Empty,
    /// These bytes, as they are.
    Bytes(Vec<u8>),
    /// A multipart form of these parts, in this order.
    Multipart(Vec<FormPart>),
}

/// The view of a `RequestBody`.
pub enum RequestBodyView {
    Empty,
    Bytes(Seq<u8>),
    Multipart(Seq<FormPartView>),
}

impl View for RequestBody {
    type V = RequestBodyView;

    open spec fn view(&self) -> RequestBodyView {
        match self {
            RequestBody::Empty => RequestBodyView::Empty,
            RequestBody::Bytes(bytes) => RequestBodyView::Bytes(bytes@),
            RequestBody::Multipart(parts) => RequestBodyView::Multipart(part_views(parts@)),
        }
    }
}

/// One request, ready to be sent.
#[derive(Debug, PartialEq, Eq)]
pub struct HttpRequest {
    pub method: Method,
    /// The URL, query included.
    pub url: String,
    pub body: RequestBody,
}

/// The view of an `HttpRequest`.
pub struct HttpRequestView {
    pub method: Method,
    pub url: Seq<char>,
    pub body: RequestBodyView,
}

impl View for HttpRequest {
    type V = HttpRequestView;

    open spec fn view(&self) -> HttpRequestView {
        HttpRequestView { method: self.method, url: self.url@, body: self.body@ }
    }
}

/// A response as it arrived.
#[derive(Debug, PartialEq, Eq)]
pub struct HttpResponse {
    /// The status code.
    pub status: u16,
    /// The response headers.
    pub headers: HeaderMap,
    /// The bytes of the body; or, where the body could not be read, the
    /// transport's words for why.
    pub body: Result<Vec<u8>, String>,
}

/// What the transport made of one request.
#[derive(Debug, PartialEq, Eq)]
pub enum HttpReply {
    /// No response came. Holds the transport's words for why.
    Failed(String),
    /// This response came.
    Response(HttpResponse),
}

/// The status says that the request succeeded: it is one of 200 to 299.
pub open spec fn is_success(status: u16) -> bool {
    200 <= status < 300
}

/// The message that an `ApiError` carries for a response: the text of its
/// body, and no text where the body could not be read.
pub open spec fn error_message(body: Result<Vec<u8>, String>) -> Seq<char> {
    match body {
        Ok(bytes) => utf8_lossy(bytes@),
        Err(_) => Seq::empty(),
    }
}

/// The error that a reply stands for by itself, whatever was asked: the
/// transport's failure, or a status outside 200 to 299. None where a
/// response with a status of success came.
pub open spec fn refusal(reply: HttpReply) -> Option<ErrorView> {
    match reply {
        HttpReply::Failed(words) => Some(ErrorView::HttpRequest(words@)),
        HttpReply::Response(response) => if is_success(response.status) {
            None
        } else {
            Some(ErrorView::ApiError(response.status, error_message(response.body)))
        },
    }
}

/// Takes a reply apart: the response where it came with a status of
/// success, and otherwise the error that the reply stands for.
pub fn accept(reply: HttpReply) -> (r: Result<HttpResponse, WalrusError>)
    ensures
        match r {
            Ok(response) => refusal(reply) is None && reply == HttpReply::Response(response),
            Err(e) => refusal(reply) == Some(e@),
        },
{
    match reply {
        HttpReply::Failed(words) => Err(WalrusError::HttpRequest(words)),
        HttpReply::Response(response) => {
            if 200 <= response.status && response.status < 300 {
                Ok(response)
            } else {
                let message = match &response.body {
                    Ok(bytes) => lossy_text(bytes.as_slice()),
                    Err(_) => String::new(),
                };
                Err(WalrusError::ApiError(response.status, message))
            }
        },
    }
}

} // verus!
