//! Core of an interactive command-line interpreter: a quote- and
//! escape-aware tokenizer, a redirection-operator extractor, a command
//! dispatcher with a structured output model, and the error types that
//! tie them together. All decisions are made here, on plain values; the
//! surrounding binary performs the terminal, filesystem and process work.

pub mod commands;
pub mod laws;
pub mod models;
pub mod numbers;
pub mod parsers;
pub mod redirect;
pub mod text;
pub mod tokenizer;
