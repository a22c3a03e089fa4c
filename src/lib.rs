//! Drives an external audio-extraction tool: builds its command line,
//! reads its progress output line by line, and turns what it reports into
//! progress events and a final outcome.
pub mod text;
pub mod progress;
pub mod parser;
pub mod error;
pub mod command;
pub mod session;
pub mod batch;
