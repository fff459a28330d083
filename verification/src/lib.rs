//! A generic layer for describing and executing typed remote HTTP calls.
//!
//! An [`endpoint::Endpoint`] describes how one remote operation builds its
//! request (path, method, query, body) and how its response is interpreted.
//! A client collaborator supplies the base URL and the transport; middleware
//! hooks may mutate the outgoing request and the incoming response.

pub mod endpoint;
pub mod enums;
pub mod errors;
pub mod http;
pub mod json;
pub mod query;
pub mod url;
