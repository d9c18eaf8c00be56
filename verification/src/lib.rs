//! Lookup of a Norwegian business-registry entity by organization number.
//!
//! The crate holds the decisions of a lookup and none of its I/O: which
//! registry call comes next, what every reply means at the place where it
//! arrives, and how the result is shown. A caller performs the calls that
//! the [`resolver::Resolver`] asks for and hands back what came of them.

pub mod call;
pub mod cli;
pub mod lookup;
pub mod model;
pub mod report;
pub mod resolver;
pub mod text;
pub mod wire;
