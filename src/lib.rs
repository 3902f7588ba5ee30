//! Polygon.io market data exposed as tools over a line-delimited JSON-RPC protocol.
//!
//! The crate holds the client resilience core (token-bucket rate limiting,
//! exponential backoff with jitter, a response cache, retry classification and
//! pagination) and the protocol dispatch core (JSON-RPC message classification
//! and the tool registry with its session state machine).
pub mod cache;
pub mod client;
pub mod error;
pub mod json;
pub mod jsonrpc;
pub mod pagination;
pub mod rate_limit;
pub mod retry;
pub mod server;
pub mod tool;
pub mod types;

pub use cache::{CacheConfig, ResponseCache};
pub use client::{PolygonClient, PolygonClientBuilder};
pub use error::PolygonError;
pub use json::JsonValue;
pub use jsonrpc::{
    JsonRpcError, JsonRpcErrorResponse, JsonRpcMessage, JsonRpcNotification, JsonRpcRequest,
    JsonRpcResponse, JsonRpcResultResponse, McpError, RequestId,
};
pub use pagination::{PagedResponse, Paginator};
pub use rate_limit::{RateLimitConfig, RateLimiter};
pub use retry::RetryConfig;
pub use server::{Dispatch, McpServer, McpServerBuilder, PROTOCOL_VERSION};
pub use tool::{CallToolResult, ContentBlock, Implementation, TextContent, ToolAnnotations, ToolDefinition, ToolInputSchema};
pub use types::{ApiResponse, ErrorResponse, Timespan};
