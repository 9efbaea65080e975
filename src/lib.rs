//! A command-line assistant's core: it turns task descriptions and source
//! files into generation requests and turns the service's answers into
//! plans, finding reports and rewritten source text.

pub mod cli;
pub mod errors;
pub mod file_utils;
pub mod json;
pub mod prompts;
pub mod gemini_client;
pub mod report;
