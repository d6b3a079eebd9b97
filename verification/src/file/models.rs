//! Records of the file sharing operations.

use vstd::prelude::*;

verus! {

/// Data structure for file information.
#[derive(Debug, Clone)]
pub struct FileData {
    /// Deletion key or URL.
    pub delete: String,
    /// Unique file ID.
    pub file_id: u64,
    /// The name under which the file was uploaded.
    pub filename: String,
    /// File hash, which is also the key to delete it by.
    pub hash: String,
    /// Image height, where the file is an image.
    pub height: Option<u32>,
    /// Page or extension info.
    pub page: Option<String>,
    /// File path.
    pub path: String,
    /// File size in bytes.
    pub size: u64,
    /// Storage name.
    pub storename: String,
    /// Upload status code.
    pub upload_status: i32,
    /// Full URL to the file.
    pub url: String,
    /// Image width, where the file is an image.
    pub width: Option<u32>,
}

/// Response structure for file upload.
#[derive(Debug, Clone)]
pub struct FileUploadResponse {
    pub code: i32,
    pub message: String,
    pub data: FileData,
}

/// Response structure for file deletion.
#[derive(Debug, Clone)]
pub struct FileDeleteResponse {
    pub code: String,
    pub message: String,
    pub success: bool,
}

/// Data structure for domains.
#[derive(Debug, Clone)]
pub struct FileDomainsData {
    pub domains: Vec<String>,
}

/// Response structure for file domains.
#[derive(Debug, Clone)]
pub struct FileDomainsResponse {
    pub code: i32,
    pub message: String,
    pub data: FileDomainsData,
}

} // verus!
