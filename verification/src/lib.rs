//! Layered runtime configuration for the AT web server.
//!
//! The configuration is resolved once, from three layers of rising
//! precedence: built-in defaults, an external configuration store, and the
//! process environment. Resolution never fails: a source that is missing,
//! or a value that cannot be read, leaves the field as the lower layers
//! set it.
//!
//! - [`models`]: the vocabulary shared with the rest of the service.
//! - [`config`]: the configuration, its defaults and its resolution.
//! - [`sources`]: what the two outside sources are asked and what they
//!   answered.
//! - [`overlay`]: the override rule of each kind of field in each layer.
//! - [`text`]: trimming and decimal parsing.
//! - [`laws`]: what holds of every resolution.

pub mod config;
pub mod laws;
pub mod models;
pub mod overlay;
pub mod sources;
pub mod text;
