//! Verified core of a low-impact TCP service discovery tool.
pub mod text;
pub mod numbers;
pub mod network;
pub mod mac;
pub mod services;
pub mod probe;
pub mod assess;
pub mod report;
pub mod clock;
pub mod target;
pub mod cli;
