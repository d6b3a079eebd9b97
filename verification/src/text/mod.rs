//! Text sharing.

pub mod models;

use crate::client::Client;
use crate::client::Dispatch;
use crate::client::Method;
use crate::client::Payload;
use crate::text::models::CreateTextRequest;
use crate::text::models::CreateTextResponse;
use crate::text::models::DeleteTextRequest;
use crate::text::models::DeleteTextResponse;
use crate::text::models::TextDomainsResponse;
use crate::text::models::UpdateTextRequest;
use crate::text::models::UpdateTextResponse;
use vstd::prelude::*;

verus! {

/// The operations on shared text.
pub trait TextService {
    /// Plans the creation of a text snippet.
    fn create_text(&self, request: CreateTextRequest) -> Dispatch<
        CreateTextRequest,
        CreateTextResponse,
    >;

    /// Plans the update of a text snippet.
    fn update_text(&self, request: UpdateTextRequest) -> Dispatch<
        UpdateTextRequest,
        UpdateTextResponse,
    >;

    /// Plans the deletion of a text snippet.
    fn delete_text(&self, request: DeleteTextRequest) -> Dispatch<
        DeleteTextRequest,
        DeleteTextResponse,
    >;

    /// Plans the listing of the domains that serve shared text.
    fn get_text_domains(&self) -> Dispatch<(), TextDomainsResponse>;
}

impl TextService for Client {
    /// The request is posted to `/text`.
    fn create_text(&self, request: CreateTextRequest) -> (plan: Dispatch<
        CreateTextRequest,
        CreateTextResponse,
    >)
        ensures
            self.plans(Method::Post, "/text"@, Payload::Json(request), plan),
    {
        self.prepare_request(Method::Post, "/text", request)
    }

    /// The request goes to `/text` with the method PUT.
    fn update_text(&self, request: UpdateTextRequest) -> (plan: Dispatch<
        UpdateTextRequest,
        UpdateTextResponse,
    >)
        ensures
            self.plans(Method::Put, "/text"@, Payload::Json(request), plan),
    {
        self.prepare_request(Method::Put, "/text", request)
    }

    /// The request goes to `/text` with the method DELETE.
    fn delete_text(&self, request: DeleteTextRequest) -> (plan: Dispatch<
        DeleteTextRequest,
        DeleteTextResponse,
    >)
        ensures
            self.plans(Method::Delete, "/text"@, Payload::Json(request), plan),
    {
        self.prepare_request(Method::Delete, "/text", request)
    }

    /// A GET of `/text/domains` that carries nothing.
    fn get_text_domains(&self) -> (plan: Dispatch<(), TextDomainsResponse>)
        ensures
            self.plans(Method::Get, "/text/domains"@, Payload::Empty, plan),
    {
        self.prepare_request_no_body(Method::Get, "/text/domains")
    }
}

} // verus!
