//! A read-only web front-end over a catalog of musicological entities:
//! compositions, people, texts, publications and the eight modes.
//!
//! The crate holds the logic of that front-end: the routing table that maps
//! an HTTP method and path to a typed lookup, the validation of mode keys,
//! the shaping of catalog records into template contexts, and the JSON body
//! of the search endpoint. The catalog itself is materialised by an outside
//! collaborator and reaches this crate as plain record values; the HTTP
//! listener and the template engine sit outside the crate and consume the
//! responses it builds.

pub mod model;
pub mod routes;
pub mod json;
pub mod respond;
