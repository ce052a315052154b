//! The JSON-RPC protocol of the MCP server.

pub mod protocol;
