//! Records of the URL shortening operations.

use crate::config::DEFAULT_DOMAIN;
use vstd::prelude::*;
use vstd::string::StringExecFns;

verus! {

/// Request structure for URL shortening. A field that is `None` is left out
/// of what goes over the wire.
#[derive(Debug, Clone)]
pub struct ShortenRequest {
    pub target_url: String,
    pub domain: String,
    pub title: Option<String>,
    pub custom_slug: Option<String>,
    pub expiration_redirect_url: Option<String>,
    pub expire_at: Option<String>,
    pub password: Option<String>,
    pub tag_ids: Option<Vec<String>>,
}

/// A shorten request as contracts see it.
pub struct ShortenRequestView {
    pub target_url: Seq<char>,
    pub domain: Seq<char>,
    pub title: Option<Seq<char>>,
    pub custom_slug: Option<Seq<char>>,
    pub expiration_redirect_url: Option<Seq<char>>,
    pub expire_at: Option<Seq<char>>,
    pub password: Option<Seq<char>>,
    pub tag_ids: Option<Seq<Seq<char>>>,
}

impl ShortenRequestView {
    /// The request for `target_url` that sets nothing else: it names the
    /// default domain, and every optional field is absent.
    pub open spec fn bare(target_url: Seq<char>) -> ShortenRequestView {
        ShortenRequestView {
            target_url,
            domain: DEFAULT_DOMAIN@,
            title: None,
            custom_slug: None,
            expiration_redirect_url: None,
            expire_at: None,
            password: None,
            tag_ids: None,
        }
    }
}

impl View for ShortenRequest {
    type V = ShortenRequestView;

    open spec fn view(&self) -> ShortenRequestView {
        ShortenRequestView {
            target_url: self.target_url@,
            domain: self.domain@,
            title: self.title.deep_view(),
            custom_slug: self.custom_slug.deep_view(),
            expiration_redirect_url: self.expiration_redirect_url.deep_view(),
            expire_at: self.expire_at.deep_view(),
            password: self.password.deep_view(),
            tag_ids: self.tag_ids.deep_view(),
        }
    }
}

impl Default for ShortenRequest {
    /// The request with an empty target URL that sets nothing else.
    fn default() -> (r: Self)
        ensures
            r@ == ShortenRequestView::bare(Seq::<char>::empty()),
    {
        ShortenRequest {
            target_url: String::new(),
            domain: String::from_str(DEFAULT_DOMAIN),
            title: None,
            custom_slug: None,
            expiration_redirect_url: None,
            expire_at: None,
            password: None,
            tag_ids: None,
        }
    }
}

/// Response structure for URL shortening.
#[derive(Debug, Clone)]
pub struct ShortenResponse {
    pub code: u16,
    pub message: String,
    pub data: ShortenData,
}

/// Data structure containing shortened URL information.
#[derive(Debug, Clone)]
pub struct ShortenData {
    pub custom_slug: String,
    pub short_url: String,
    pub slug: String,
}

/// Request structure for deleting a shortened URL.
#[derive(Debug, Clone)]
pub struct DeleteRequest {
    pub domain: String,
    pub slug: String,
}

/// Response structure for URL deletion.
#[derive(Debug, Clone)]
pub struct DeleteResponse {
    pub code: u16,
    pub message: String,
    pub data: Option<String>,
}

} // verus!
