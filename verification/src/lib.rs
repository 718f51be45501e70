//! Implementation-selection layer of a DNS interoperability test harness.
//!
//! Maps an abstract test intent — run a DNS server as an authoritative name
//! server or as a recursive resolver, with given parameters — onto the
//! concrete artifacts needed to launch one of several real DNS server
//! implementations: the rendered configuration text, the on-disk path of the
//! configuration file, the command line, and the PID file location.

pub mod implementation;
pub mod repository;
pub mod templates;

pub use crate::implementation::{Config, ConfigV, Implementation, ImplementationV, Role, Unsupported};
pub use crate::repository::{Repository, RepositoryError};
