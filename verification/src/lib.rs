//! A logger behind a capability trait.
//!
//! Code that needs to log takes any [`AbxLogger`] instead of the concrete
//! [`Logger`], so the same code runs against the real logger and against a
//! [`FakeLogger`] that only remembers what it was asked to log. Every
//! implementation keeps a history of the calls made on it, and the contracts
//! are stated over that history.

pub mod abx;
pub mod call;
pub mod fake;
pub mod logger;
pub mod logic;

pub use crate::abx::AbxLogger;
pub use crate::call::{LogCall, LogKind};
pub use crate::fake::FakeLogger;
pub use crate::logger::Logger;
pub use crate::logic::run;
