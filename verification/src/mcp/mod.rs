//! The MCP surface: JSON-RPC messages, the tool catalog, and one module per family of tools.

pub mod arguments;
pub mod catalog;
pub mod code;
pub mod content;
pub mod dispatch;
pub mod instructions;
pub mod jsonrpc;
pub mod memory;
pub mod memory_flow;
pub mod memory_write;
pub mod reply;
pub mod stats;
pub mod tools;
