//! A typed client for the s.ee content-sharing service: URL shortening, text
//! snippets and file uploads.
//!
//! The crate plans requests and classifies responses; every rule that decides
//! what is sent and how a reply is read is stated as a contract and proved.

pub mod address;
pub mod client;
pub mod config;
pub mod domain;
pub mod error;
pub mod file;
pub mod tag;
pub mod text;
pub mod url;
