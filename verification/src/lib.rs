//! Verified core of an OGC API service for collection metadata: the
//! authorization gate, the hypermedia link assembler, the capability
//! registry and the collection resource service.

pub mod auth;
pub mod collection;
pub mod link;
pub mod registry;
pub mod request_url;
pub mod service;
pub mod status;
pub mod text;
