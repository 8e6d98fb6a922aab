//! Host metrics store: per-domain records with capped sample histories,
//! shared between one sampling task and any number of readers.

pub mod aggregate;
pub mod history;
pub mod record;
pub mod sampler;
pub mod store;
