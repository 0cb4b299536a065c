//! Session discovery, hybrid encryption and upload orchestration for the
//! Catch command line agent, with every rule stated as a contract.

pub mod api_client;
pub mod git_info;
pub mod ongoing_session;
pub mod orchestrator;
pub mod pipeline;
pub mod sequence;
pub mod text;
pub mod code_analyzer;
pub mod code_candidate_selector;
pub mod code_reader;
pub mod code_uploader;
pub mod cryptography;
