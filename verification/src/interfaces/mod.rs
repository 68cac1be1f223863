//! Decisions of the protocol bridges.

pub mod mcp;
