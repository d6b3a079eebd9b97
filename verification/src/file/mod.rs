//! File sharing.

pub mod models;

use crate::client::Client;
use crate::client::Dispatch;
use crate::client::Method;
use crate::client::Payload;
use crate::file::models::FileDeleteResponse;
use crate::file::models::FileDomainsResponse;
use crate::file::models::FileUploadResponse;
use vstd::prelude::*;
use vstd::string::StringExecFns;

verus! {

/// The operations on shared files.
pub trait FileService {
    /// Plans the upload of the file at `file_path`.
    fn upload_file(&self, file_path: &str) -> Dispatch<(), FileUploadResponse>;

    /// Plans the deletion of the file with the given key.
    fn delete_file(&self, key: &str) -> Dispatch<(), FileDeleteResponse>;

    /// Plans the listing of the domains that serve shared files.
    fn get_file_domains(&self) -> Dispatch<(), FileDomainsResponse>;
}

/// The path of the endpoint that deletes the file with the given key.
pub open spec fn delete_path(key: Seq<char>) -> Seq<char> {
    "/file/delete/"@ + key
}

impl FileService for Client {
    /// The file is posted to `/file/upload` as the part `file` of a
    /// multipart form.
    fn upload_file(&self, file_path: &str) -> (plan: Dispatch<(), FileUploadResponse>)
        ensures
            plan.method == Method::Post,
            plan.url@ == self.configuration().base_url@ + "/file/upload"@,
            plan.authorization == self.configuration().api_key,
            plan.payload matches Payload::File { field, path } && field@ == "file"@ && path@
                == file_path@,
    {
        self.prepare_multipart_request(Method::Post, "/file/upload", "file", file_path)
    }

    /// A GET of `/file/delete/` followed by the key as it is, carrying nothing.
    fn delete_file(&self, key: &str) -> (plan: Dispatch<(), FileDeleteResponse>)
        ensures
            self.plans(Method::Get, delete_path(key@), Payload::Empty, plan),
    {
        let path = String::from_str("/file/delete/").concat(key);
        self.prepare_request_no_body(Method::Get, path.as_str())
    }

    /// A GET of `/file/domains` that carries nothing.
    fn get_file_domains(&self) -> (plan: Dispatch<(), FileDomainsResponse>)
        ensures
            self.plans(Method::Get, "/file/domains"@, Payload::Empty, plan),
    {
        self.prepare_request_no_body(Method::Get, "/file/domains")
    }
}

} // verus!
