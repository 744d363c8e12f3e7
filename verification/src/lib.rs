//! A model of a small diagnostic HTTP service that shows how a bounded
//! database connection pool behaves under different execution strategies.

pub mod config;
pub mod context;
pub mod decimal;
pub mod error;
pub mod lifecycle;
pub mod pool;
pub mod route;
pub mod strategy;
pub mod work;
