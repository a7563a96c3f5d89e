//! Client-side retrieval of packaged configuration bundles.
//!
//! Given a host, an access token and the deployment coordinates (stage,
//! environment, component), the library builds one authenticated request,
//! classifies the server's response status into a small error taxonomy, and
//! unpacks the archived payload into an output directory.

pub mod archive;
pub mod errors;
pub mod headers;
pub mod numerals;
pub mod retriever;
