//! A verified client library for a dataset/competition/notebook hosting
//! service's HTTP API.
//!
//! The heart of the crate is the artifact publication pipeline: validating a
//! local metadata description, planning which files to upload, sequencing the
//! per-file ticket/upload protocol, and assembling the final create, version
//! or push request. All of that logic lives here as verified code; the HTTP
//! transport and the file system sit outside the library and drive it by
//! exchanging plain values.

pub mod archive;
pub mod client;
pub mod competition_flow;
pub mod config;
pub mod dataset_flow;
pub mod endpoints;
pub mod error;
pub mod kernels;
pub mod models;
pub mod query;
pub mod request;
pub mod strutil;
pub mod ticket;
pub mod upload;

pub use client::{Authentication, KaggleApiClient};
pub use error::{ApiError, KaggleError};
