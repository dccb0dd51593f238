//! A minimal template for a web application.
//!
//! The crate composes "features" (self-contained units of business logic
//! plus their HTTP routes) into a single application, with a
//! dependency-injectable application state for testing. The only feature
//! present (`foo`) returns a constant integer; the only other route is a
//! health check.

pub mod app;
pub mod feat;

pub use app::Application;
pub use app::ApplicationBuilder;
