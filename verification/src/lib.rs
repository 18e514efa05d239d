//! The verified core of a data-serving node.
//!
//! The read path is a facade in front of two collaborators, the upstream node
//! and the local indexed store: `registry` decides who answers a method,
//! `read_api` holds the operations of the surface, `batch` puts the rows of a
//! batch back into the order of the request, `types` and `options` compose the
//! answers, and `wire` writes 64-bit counters as decimal text.
//!
//! `genesis_config` and `preload` hold the configuration from which a network
//! is started and the gas objects that exist at its start.

pub mod address;
pub mod base_types;
pub mod batch;
pub mod crypto;
pub mod errors;
pub mod genesis_config;
pub mod options;
pub mod preload;
pub mod protocol;
pub mod read_api;
pub mod registry;
pub mod types;
pub mod wire;
