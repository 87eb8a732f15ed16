//! Types of the monitoring and control API: the trading state and the plain
//! records the API answers with.

pub mod models;
pub mod state;
