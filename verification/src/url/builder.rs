//! Step-by-step construction of a shorten request.

use crate::address::parse_url;
use crate::address::url_parse;
use crate::error::Error;
use crate::url::models::ShortenRequest;
use crate::url::models::ShortenRequestView;
use vstd::prelude::*;
use vstd::string::StringExecFns;

verus! {

/// Builds a `ShortenRequest`: the target URL first, checked as it is given,
/// then the optional fields, then `build`.
pub struct UrlShortenerRequestBuilder {
    data: ShortenRequest,
}

impl View for UrlShortenerRequestBuilder {
    type V = ShortenRequestView;

    /// The request as it stands so far.
    closed spec fn view(&self) -> ShortenRequestView {
        self.data@
    }
}

impl UrlShortenerRequestBuilder {
    /// Starts a request for `url`. Fails, with the parser's error, exactly
    /// where `url` does not parse as an absolute URL; otherwise the target is
    /// the URL in normal form, the domain is the default one and nothing else
    /// is set.
    pub fn new(url: &str) -> (r: Result<Self, Error>)
        ensures
            match r {
                Ok(builder) => url_parse(url@) matches Some(parsed) && builder@
                    == ShortenRequestView::bare(parsed.1),
                Err(e) => url_parse(url@) is None && e is UrlParseError,
            },
    {
        match parse_url(url) {
            Ok(parsed) => {
                let fresh = ShortenRequest::default();
                Ok(
                    UrlShortenerRequestBuilder {
                        data: ShortenRequest {
                            target_url: parsed.serialization,
                            domain: fresh.domain,
                            title: fresh.title,
                            custom_slug: fresh.custom_slug,
                            expiration_redirect_url: fresh.expiration_redirect_url,
                            expire_at: fresh.expire_at,
                            password: fresh.password,
                            tag_ids: fresh.tag_ids,
                        },
                    },
                )
            },
            Err(cause) => Err(Error::from(cause)),
        }
    }

    /// Asks for `alias` as the slug of the short link.
    pub fn with_custom_alias(self, alias: &str) -> (r: Self)
        ensures
            r@ == (ShortenRequestView { custom_slug: Some(alias@), ..self@ }),
    {
        let mut data = self.data;
        data.custom_slug = Some(String::from_str(alias));
        UrlShortenerRequestBuilder { data }
    }

    /// Sets the time at which the short link expires.
    pub fn with_expiration(self, expiration: &str) -> (r: Self)
        ensures
            r@ == (ShortenRequestView { expire_at: Some(expiration@), ..self@ }),
    {
        let mut data = self.data;
        data.expire_at = Some(String::from_str(expiration));
        UrlShortenerRequestBuilder { data }
    }

    /// Sets the domain under which the short link is served.
    pub fn with_domain(self, domain: &str) -> (r: Self)
        ensures
            r@ == (ShortenRequestView { domain: domain@, ..self@ }),
    {
        let mut data = self.data;
        data.domain = String::from_str(domain);
        UrlShortenerRequestBuilder { data }
    }

    /// Hands out the request as it stands.
    pub fn build(self) -> (r: ShortenRequest)
        ensures
            r@ == self@,
    {
        self.data
    }
}

} // verus!
