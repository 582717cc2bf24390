pub mod config;
pub mod filter;
pub mod health;
pub mod message;
pub mod metrics;
pub mod pipeline;
pub mod text;
