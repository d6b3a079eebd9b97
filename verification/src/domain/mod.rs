//! Domains.

use crate::client::Client;
use crate::client::Dispatch;
use crate::client::Method;
use crate::client::Payload;
use vstd::prelude::*;

verus! {

/// The operations on domains.
pub trait DomainService {
    /// Plans the listing of the domains that serve short links.
    fn list(&self) -> Dispatch<(), DomainListResponse>;
}

/// Data structure for the list of domains.
#[derive(Debug, Clone)]
pub struct DomainListData {
    pub domains: Vec<String>,
}

/// Response for listing domains.
#[derive(Debug, Clone)]
pub struct DomainListResponse {
    pub code: u16,
    pub message: String,
    pub data: DomainListData,
}

impl DomainService for Client {
    /// A GET of `/domains` that carries nothing.
    fn list(&self) -> (plan: Dispatch<(), DomainListResponse>)
        ensures
            self.plans(Method::Get, "/domains"@, Payload::Empty, plan),
    {
        self.prepare_request_no_body(Method::Get, "/domains")
    }
}

} // verus!
