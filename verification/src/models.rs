//! Records that the storage layer and the collaborating services exchange with
//! the runtime core. They carry data only.
use vstd::prelude::*;

verus! {

/// A model to be added to the registry.
#[derive(Clone, Debug)]
pub struct NewModel {
    pub name: String,
    pub display_name: String,
    pub family: String,
    pub version: Option<String>,
    pub parameter_count: Option<String>,
    pub quantization: Option<String>,
    pub file_format: String,
    pub file_path: Option<String>,
    pub file_size_mb: Option<i64>,
    pub context_length: i64,
    pub embedding_size: Option<i64>,
    pub category: String,
    pub capabilities: String,
    pub min_ram_mb: i64,
    pub recommended_ram_mb: i64,
    pub min_vram_mb: i64,
    pub performance_tier: String,
    pub energy_tier: String,
    pub download_url: Option<String>,
    pub sha256_checksum: Option<String>,
    pub tags: String,
    pub metadata: String,
}

/// A conversation.
#[derive(Clone, Debug)]
pub struct Session {
    pub id: String,
    pub user_id: String,
    pub title: Option<String>,
    pub model_id: Option<String>,
    pub system_prompt: Option<String>,
    pub context_window_used: Option<i64>,
    pub token_count: i64,
    pub message_count: i64,
    pub status: String,
    pub summary: Option<String>,
    pub tags: String,
    pub pinned: i64,
    pub forked_from_session_id: Option<String>,
    pub forked_at_message_id: Option<String>,
    pub metadata: String,
    pub last_message_at: Option<String>,
    pub created_at: String,
    pub updated_at: String,
}

/// A message to be appended to a conversation.
#[derive(Clone, Debug)]
pub struct NewMessage {
    pub session_id: String,
    pub role: String,
    pub content: String,
    pub content_type: String,
    pub token_count: Option<i64>,
    pub model_id: Option<String>,
    pub metadata: String,
    pub position: i64,
}

/// A message found by a text search.
#[derive(Clone, Debug)]
pub struct MessageSearchResult {
    pub id: String,
    pub session_id: String,
    pub role: String,
    pub content: String,
    pub position: i64,
    pub created_at: String,
}

/// One call of a tool, with its outcome once it has one.
#[derive(Clone, Debug)]
pub struct ToolCall {
    pub id: String,
    pub message_id: String,
    pub session_id: String,
    pub mcp_id: Option<String>,
    pub tool_name: String,
    pub tool_input: String,
    pub tool_output: Option<String>,
    pub status: String,
    pub error_message: Option<String>,
    pub latency_ms: Option<i64>,
    pub started_at: Option<String>,
    pub completed_at: Option<String>,
    pub created_at: String,
    pub updated_at: String,
}

/// A tool call to be recorded.
#[derive(Clone, Debug)]
pub struct NewToolCall {
    pub message_id: String,
    pub session_id: String,
    pub mcp_id: Option<String>,
    pub tool_name: String,
    pub tool_input: String,
}

/// A document of the retrieval index.
#[derive(Clone, Debug)]
pub struct Document {
    pub id: String,
    pub user_id: String,
    pub title: String,
    pub file_path: Option<String>,
    pub source_url: Option<String>,
    pub source_type: String,
    pub mime_type: Option<String>,
    pub file_size_bytes: Option<i64>,
    pub language: Option<String>,
    pub namespace: String,
    pub index_status: String,
    pub chunk_count: Option<i64>,
    pub token_count: Option<i64>,
    pub checksum: Option<String>,
    pub access_level: String,
    pub version: i64,
    pub parent_document_id: Option<String>,
    pub is_deleted: i64,
    pub last_indexed_at: Option<String>,
    pub metadata: String,
    pub created_at: String,
    pub updated_at: String,
}

/// A document to be added to the retrieval index.
#[derive(Clone, Debug)]
pub struct NewDocument {
    pub user_id: String,
    pub title: String,
    pub file_path: Option<String>,
    pub source_url: Option<String>,
    pub source_type: String,
    pub mime_type: Option<String>,
    pub file_size_bytes: Option<i64>,
    pub namespace: String,
    pub checksum: Option<String>,
    pub metadata: String,
}

/// A passage of a document.
#[derive(Clone, Debug)]
pub struct Chunk {
    pub id: String,
    pub document_id: String,
    pub user_id: String,
    pub chunk_index: i64,
    pub content: String,
    pub token_count: i64,
    pub start_char: Option<i64>,
    pub end_char: Option<i64>,
    pub page_number: Option<i64>,
    pub section_title: Option<String>,
    pub heading_path: Option<String>,
    pub embedding_id: Option<String>,
    pub metadata: String,
    pub created_at: String,
    pub updated_at: String,
}

/// A passage to be stored.
#[derive(Clone, Debug)]
pub struct NewChunk {
    pub document_id: String,
    pub user_id: String,
    pub chunk_index: i64,
    pub content: String,
    pub token_count: i64,
    pub start_char: Option<i64>,
    pub end_char: Option<i64>,
    pub page_number: Option<i64>,
    pub section_title: Option<String>,
    pub heading_path: Option<String>,
    pub metadata: String,
}

/// A tool server as the registry lists it. Flags are 0 or 1.
#[derive(Clone, Debug)]
pub struct Mcp {
    pub id: String,
    pub name: String,
    pub display_name: String,
    pub description: Option<String>,
    pub version: Option<String>,
    pub author: Option<String>,
    pub icon_path: Option<String>,
    pub category: String,
    pub mcp_type: String,
    pub command: Option<String>,
    pub args: String,
    pub env_vars: String,
    pub url: Option<String>,
    pub tool_schemas: String,
    pub resource_schemas: String,
    pub prompt_schemas: String,
    pub is_installed: i64,
    pub is_active: i64,
    pub is_builtin: i64,
    pub is_default: i64,
    pub health_status: String,
    pub last_health_check_at: Option<String>,
    pub last_error: Option<String>,
    pub metadata: String,
    pub created_at: String,
    pub updated_at: String,
}

/// How often one tool of a tool server was called, and how it went.
#[derive(Clone, Debug)]
pub struct McpUsageStat {
    pub id: String,
    pub mcp_id: String,
    pub user_id: String,
    pub tool_name: String,
    pub call_count: i64,
    pub success_count: i64,
    pub error_count: i64,
    pub total_latency_ms: i64,
    pub last_called_at: Option<String>,
    pub created_at: String,
    pub updated_at: String,
}

/// What a tool returned.
#[derive(Clone, Debug)]
pub struct ToolResult {
    pub mcp_id: String,
    pub tool_name: String,
    pub output: String,
    pub latency_ms: i64,
    pub success: bool,
    pub error: Option<String>,
}

/// A text to be ranked against a query.
#[derive(Clone, Debug)]
pub struct RankCandidate {
    pub id: String,
    pub text: String,
    pub metadata: Option<String>,
}

/// Something named in a request: a link, a path, a number.
#[derive(Clone, Debug)]
pub struct Entity {
    pub kind: String,
    pub value: String,
}

/// A phrase of a request that names a time, with the dates it stands for.
#[derive(Clone, Debug)]
pub struct TemporalRef {
    pub phrase: String,
    pub start: Option<String>,
    pub end: Option<String>,
}

/// The text of one generation and why it ended.
#[derive(Clone, Debug)]
pub struct GenerationResult {
    pub text: String,
    pub tokens_generated: usize,
    pub finish_reason: String,
}

/// One token of a streamed answer.
#[derive(Clone, Debug)]
pub struct MessageStreamChunk {
    pub session_id: String,
    pub token: String,
    pub done: bool,
}

/// Whether a tool server answers.
#[derive(Clone, Debug)]
pub struct McpHealthStatus {
    pub mcp_id: String,
    pub health_status: String,
    pub last_error: Option<String>,
}

/// The model that the inference engine holds, and how it was loaded.
#[derive(Clone, Debug)]
pub struct ModelInfo {
    pub path: String,
    pub context_length: usize,
    pub n_gpu_layers: i32,
    pub n_threads: usize,
}

/// One stored setting.
#[derive(Clone, Debug)]
pub struct Setting {
    pub id: String,
    pub user_id: Option<String>,
    pub namespace: String,
    pub key: String,
    pub value: String,
    pub value_type: String,
    pub is_encrypted: i64,
    pub description: Option<String>,
    pub created_at: String,
    pub updated_at: String,
}

} // verus!
