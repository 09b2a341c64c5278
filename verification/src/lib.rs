//! A small web service that answers every debate with the same witty reply.
//!
//! The crate holds the pure core of the service: HTML templates, the JSON
//! body of the API, the static-asset registry, the route dispatcher and the
//! error-page interceptor. Everything here is a function from plain request
//! data (path, query parameter, clock readings) to a fully determined
//! response; the HTTP plumbing around it lives outside the library.

pub mod assets;
pub mod handlers;
pub mod http;
pub mod json;
pub mod laws;
pub mod strutil;
pub mod templates;
