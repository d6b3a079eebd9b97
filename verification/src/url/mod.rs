//! URL shortening.

pub mod builder;
pub mod models;

use crate::address::is_valid_url_spec;
use crate::client::Client;
use crate::client::Dispatch;
use crate::client::Method;
use crate::client::Payload;
use crate::error::Error;
use crate::error::ErrorView;
use crate::url::models::DeleteRequest;
use crate::url::models::DeleteResponse;
use crate::url::models::ShortenRequest;
use crate::url::models::ShortenResponse;
use vstd::prelude::*;

verus! {

/// The operations on short links.
pub trait ShortenService {
    /// Plans the shortening of `request.target_url`.
    fn shorten(&self, request: ShortenRequest) -> Result<
        Dispatch<ShortenRequest, ShortenResponse>,
        Error,
    >;

    /// Plans the deletion of a short link.
    fn delete(&self, request: DeleteRequest) -> Dispatch<DeleteRequest, DeleteResponse>;
}

impl ShortenService for Client {
    /// A request whose target is not an `http` or `https` URL is turned down
    /// here, as `InvalidUrl` with the target, and nothing is to be sent for
    /// it. Every other request is posted to `/shorten` as it is.
    fn shorten(&self, request: ShortenRequest) -> (r: Result<
        Dispatch<ShortenRequest, ShortenResponse>,
        Error,
    >)
        ensures
            is_valid_url_spec(request.target_url@) ==> r is Ok && self.plans(
                Method::Post,
                "/shorten"@,
                Payload::Json(request),
                r->Ok_0,
            ),
            !is_valid_url_spec(request.target_url@) ==> r is Err && r->Err_0@
                == ErrorView::InvalidUrl(request.target_url@),
    {
        if !self.is_valid_url(request.target_url.as_str()) {
            return Err(Error::InvalidUrl(request.target_url));
        }
        Ok(self.prepare_request(Method::Post, "/shorten", request))
    }

    /// The request goes to `/shorten` with the method DELETE.
    fn delete(&self, request: DeleteRequest) -> (plan: Dispatch<DeleteRequest, DeleteResponse>)
        ensures
            self.plans(Method::Delete, "/shorten"@, Payload::Json(request), plan),
    {
        self.prepare_request(Method::Delete, "/shorten", request)
    }
}

} // verus!
