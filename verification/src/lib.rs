//! Checks Google Antigravity quota: reads the command line, finds the OAuth
//! token, asks the Code Assist API for the project and its quota, and shows
//! and records the answer.
//!
//! The library decides and computes; it touches no file, socket or clock.
//! [`workflow::CheckRun`] says what is to be done next and takes in what came
//! of it.
pub mod auth;
pub mod cli;
pub mod client;
pub mod fetch;
pub mod history;
pub mod http;
pub mod json;
pub mod models;
pub mod output;
pub mod secrecy;
pub mod text;
pub mod workflow;

pub use cli::{Command, Options, OutputFormat};
pub use models::{LoadCodeAssistResponse, QuotaBucket, QuotaGroup, QuotaSummaryResponse, Tier};
