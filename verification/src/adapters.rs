//! The adapters layer: the CLI entry wrapper.

pub mod cli_adapter;
