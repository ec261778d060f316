use vstd::prelude::*;

pub mod bootstrap;
pub mod config;
pub mod logger;

pub use config::AppConfig;
pub use logger::ConsoleLogger;
pub use logger::Level;

verus! {

} // verus!
