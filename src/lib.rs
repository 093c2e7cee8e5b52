//! Client library for a REST API described by an operation catalog.
pub mod catalog;
pub mod cli;
pub mod client;
pub mod error;
pub mod laws;
pub mod resolve;
pub mod text;

pub use catalog::{find_operation, openapi_default_server_url, OperationDefinition};
pub use cli::{operation_rows, parse_pairs, PairError};
pub use client::{
    decode_response, normalized_path, ApiClient, BlockingApiClient, BlockingIriClient, IriClient,
    JsonBody, PreparedRequest,
};
pub use error::ClientError;
pub use resolve::{render_path, resolve};
