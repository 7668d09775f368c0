//! Supervision core for a multi-protocol network service host.
//!
//! A `Commander` owns one administrative worker and a collection of ordinary
//! protocol workers (`Contributor`), drives them through a uniform lifecycle
//! (`Serve`), and each worker tracks its live connections in a `Context`.

pub mod admin;
pub mod category;
pub mod commander;
pub mod context;
pub mod infra;
pub mod lifecycle;
pub mod profile;
pub mod session;
pub mod worker;

pub use category::Category;
pub use commander::Commander;
pub use lifecycle::{Phase, Serve};
pub use profile::Profile;
pub use worker::Contributor;
