//! Deployment-plugin configuration core.
//!
//! Gathers deployment parameters from an environment snapshot with two-tier
//! (generic / tool-specific) variable naming and typed coercion, resolves a
//! JSON map of value overrides whose entries may be indirection markers that
//! alias other environment variables, renders a fixed cluster-credentials
//! document, and builds the argument lists for the cleanup and upgrade tools.

pub mod command;
pub mod config;
pub mod environment;
pub mod errors;
pub mod json;
pub mod marker;
pub mod renderer;
pub mod resolver;
pub mod values;
