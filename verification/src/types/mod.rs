//! Request and response types of the Letta API.
//!
//! JSON values are held as [`crate::json::JsonDoc`], string-keyed maps as
//! [`common::StringMap`] and [`common::Metadata`], timestamps as RFC 3339 text, and
//! floating-point numbers as the bits of their IEEE 754 representation.

pub mod common;
pub mod agent;
pub mod memory;
pub mod message;
pub mod batch;
pub mod identity;
pub mod groups;
pub mod runs;
pub mod provider;
pub mod models;
pub mod tags;
pub mod tool;
pub mod source;
pub mod template;
pub mod project;
pub mod health;
pub mod telemetry;
pub mod voice;
