//! Cached lookup of Old School RuneScape market prices: when to trust the
//! on-disk copy of a dataset, how a load proceeds, and which items a query
//! names.

pub mod client;
pub mod config;
pub mod display;
pub mod ids;
pub mod loader;
pub mod matcher;
pub mod model;
pub mod policy;
pub mod trace;
