//! Turns a trading-account configuration document into a flat file of
//! environment variables.
//!
//! A document is read as a tree of plain values, held against the
//! configuration model with the path of the first failure, and rendered as
//! `KEY=VALUE` lines in a fixed order. The maximum loss per trade, a product
//! of two doubles, is computed by the caller and handed to the rendering.

pub mod decimal;
pub mod document;
pub mod error;
pub mod generator;
pub mod lines;
pub mod model;
pub mod number;
pub mod schema;
mod text;
pub mod yaml;

pub use document::{Node, Source};
pub use error::ConfigError;
pub use generator::{env_lines, generate};
pub use model::{AccountConfig, AppConfig, NetworkConfig, RuntimeKind};
pub use number::Real;
pub use schema::{load, validate};
