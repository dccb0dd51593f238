//! Features of the application.

pub mod foo;
pub mod web;

pub use web::WebServer;
