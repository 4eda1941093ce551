//! A verified core for a small image-dimension service: it inspects the
//! leading bytes of a fetched resource, recognises the PNG signature, and
//! decodes the image's width and height from the fixed-offset header fields.
//! Query-string handling, routing decisions and the JSON responses are
//! verified here as well; the network itself is left to the surrounding
//! program.

pub mod png;
pub mod query;
pub mod response;
pub mod service;
