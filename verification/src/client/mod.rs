//! Client-side request bookkeeping.

pub mod completion;
pub mod config;
pub mod in_flight;
pub mod dispatch;
