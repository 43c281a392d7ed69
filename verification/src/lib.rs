//! A verified core for issuing HTTP requests from loosely structured values.
//!
//! A caller describes an exchange as a structured [`value::Dynamic`]; the
//! descriptor is validated into typed [`descriptor::Parameters`], sent over a
//! reusable transport handle, and the response body is decoded into the
//! requested output shape. Validation, header parsing, body rendering and
//! response decoding are verified; the network calls themselves are behind
//! small trusted wrappers.

pub mod decode;
pub mod descriptor;
pub mod error;
pub mod header;
pub mod outside;
pub mod render;
pub mod request;
pub mod text;
pub mod transport;
pub mod value;
