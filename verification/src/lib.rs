//! Decision logic of the local-rag daemon.

pub mod consolidation_trigger;
pub mod embedder_provider;
pub mod failure;
pub mod gc;
pub mod gitroot;
pub mod handshake;
pub mod handshake_stub;
pub mod idle;
pub mod indexing;
pub mod jobs;
pub mod json;
pub mod lifecycle;
pub mod lock;
pub mod lookout;
pub mod mcp;
pub mod mode;
pub mod normalization;
pub mod order;
pub mod paths;
pub mod probe;
pub mod protocol;
pub mod query_embedder;
pub mod report;
pub mod scope;
pub mod text;
pub mod vocabulary;
