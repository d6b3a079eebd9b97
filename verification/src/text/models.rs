//! Records of the text sharing operations.

use vstd::prelude::*;

verus! {

/// `serde_json::Value`, a JSON value of any shape. It is carried as it is;
/// nothing is claimed of what it holds.
#[verifier::external_type_specification]
#[verifier::external_body]
pub struct ExJsonValue(serde_json::Value);

/// `Clone` for `serde_json::Value`, which the crate derives: the clone is a
/// value equal to the one it was made from.
pub assume_specification[ <serde_json::Value as Clone>::clone ](v: &serde_json::Value) -> (r:
    serde_json::Value)
    ensures
        r == *v,
;

/// Request structure for creating a text snippet. A field that is `None` is
/// left out of what goes over the wire.
#[derive(Debug, Clone)]
pub struct CreateTextRequest {
    /// The text content to share.
    pub content: String,
    /// Title for the text snippet.
    pub title: String,
    /// Optional specific domain to use.
    pub domain: Option<String>,
    /// Optional custom slug.
    pub custom_slug: Option<String>,
    /// Optional expiration timestamp.
    pub expire_at: Option<i64>,
    /// Optional password for protection.
    pub password: Option<String>,
    /// Optional tag IDs.
    pub tag_ids: Option<Vec<u32>>,
    /// Optional text type, such as the language to highlight.
    pub text_type: Option<String>,
}

/// Data structure for created text.
#[derive(Debug, Clone)]
pub struct CreateTextData {
    pub custom_slug: Option<String>,
    pub short_url: String,
    pub slug: String,
}

/// Response for creating a text snippet.
#[derive(Debug, Clone)]
pub struct CreateTextResponse {
    pub code: i32,
    pub message: String,
    pub data: CreateTextData,
}

/// Request structure for updating a text snippet.
#[derive(Debug, Clone)]
pub struct UpdateTextRequest {
    /// The new content.
    pub content: String,
    /// The domain of the shared text.
    pub domain: String,
    /// The slug of the shared text.
    pub slug: String,
    /// The new title.
    pub title: String,
}

/// Response for updating a text snippet. The service sends no fixed shape
/// in `data`, so it is kept as the JSON value that came.
#[derive(Debug, Clone)]
pub struct UpdateTextResponse {
    pub code: i32,
    pub message: String,
    pub data: serde_json::Value,
}

/// Request structure for deleting a text snippet.
#[derive(Debug, Clone)]
pub struct DeleteTextRequest {
    /// The domain of the shared text.
    pub domain: String,
    /// The slug of the shared text to delete.
    pub slug: String,
}

/// Response for deleting a text snippet. The service sends no fixed shape
/// in `data`, so it is kept as the JSON value that came.
#[derive(Debug, Clone)]
pub struct DeleteTextResponse {
    pub code: i32,
    pub message: String,
    pub data: serde_json::Value,
}

/// Data structure for text domains.
#[derive(Debug, Clone)]
pub struct TextDomainsData {
    pub domains: Vec<String>,
}

/// Response for getting text domains.
#[derive(Debug, Clone)]
pub struct TextDomainsResponse {
    pub code: i32,
    pub message: String,
    pub data: TextDomainsData,
}

} // verus!
