//! Local long-term memory broker for coding assistants: the verified core.
//!
//! The crate holds the rules of the broker: the record model and its normal
//! forms, the retrieval orchestrator, the embedded engine's ranking, the
//! remote proxy's requests, the JSON-RPC routing, and the decisions of the
//! process supervisor and the availability monitor. Everything that touches
//! the disk, the network, the clock of a loop or floating-point numbers is
//! done by the caller, who hands plain values in and takes plain values
//! back.

pub mod application;
pub mod bootstrap;
pub mod domain;
pub mod infrastructure;
pub mod interfaces;
pub mod json;
pub mod power_manager;
pub mod ranking;
pub mod service_manager;
pub mod settings;
pub mod text;

pub use bootstrap::{
    apply_model_override, build_backend_response, init_embedder, map_domain_error, select_mode,
};
