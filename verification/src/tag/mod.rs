//! Tags.

use crate::client::Client;
use crate::client::Dispatch;
use crate::client::Method;
use crate::client::Payload;
use vstd::prelude::*;

verus! {

/// A tag that short links can carry.
#[derive(Debug, Clone)]
pub struct Tag {
    pub id: u32,
    pub name: String,
}

/// The operations on tags.
pub trait TagService {
    /// Plans the listing of the account's tags.
    fn list(&self) -> Dispatch<(), TagListResponse>;
}

/// Data structure for the list of tags.
#[derive(Debug, Clone)]
pub struct TagListData {
    pub tags: Vec<Tag>,
}

/// Response for listing tags.
#[derive(Debug, Clone)]
pub struct TagListResponse {
    pub code: u16,
    pub message: String,
    pub data: TagListData,
}

impl TagService for Client {
    /// A GET of `/tags` that carries nothing.
    fn list(&self) -> (plan: Dispatch<(), TagListResponse>)
        ensures
            self.plans(Method::Get, "/tags"@, Payload::Empty, plan),
    {
        self.prepare_request_no_body(Method::Get, "/tags")
    }
}

} // verus!
