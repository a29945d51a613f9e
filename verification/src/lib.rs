//! Island Defense replay pipeline: a verified Warcraft III replay decoder,
//! an outcome extractor for the asymmetric builders-versus-titan mode, a
//! two-role Bayesian rating engine, and the pub/sub envelope model that the
//! worker processes exchange.

pub mod api;
pub mod errors;
pub mod extractor;
pub mod flate;
pub mod ingest;
pub mod laws;
pub mod model;
pub mod parser;
pub mod pubsub;
pub mod rating;
pub mod reader;
pub mod spec_parse;
pub mod stats;

pub use errors::DecodeError;
pub use errors::ExtractError;
