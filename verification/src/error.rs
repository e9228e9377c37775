//! The error type of the application.
use vstd::prelude::*;
use vstd::string::StringExecFns;

verus! {

/// What can go wrong, by the component that failed.
#[derive(Debug)]
pub enum AppError {
    Database(String),
    Inference(String),
    Embedding(String),
    McpError { mcp_id: String, message: String },
    NotFound { entity: String, id: String },
    Crypto(String),
    Hardware(String),
    Io(String),
    Validation { field: String, message: String },
    Config(String),
    Internal(String),
    Timeout(String),
    RateLimit(String),
}

/// `ctx`, a colon and a space, then `detail`.
pub open spec fn prefixed(ctx: Seq<char>, detail: Seq<char>) -> Seq<char> {
    ctx + ": "@ + detail
}

impl AppError {
    /// The detail of an error that carries a single text.
    pub open spec fn detail(self) -> Option<Seq<char>> {
        match self {
            AppError::Database(e) => Some(e@),
            AppError::Inference(e) => Some(e@),
            AppError::Embedding(e) => Some(e@),
            AppError::Crypto(e) => Some(e@),
            AppError::Hardware(e) => Some(e@),
            AppError::Io(e) => Some(e@),
            AppError::Config(e) => Some(e@),
            AppError::Internal(e) => Some(e@),
            AppError::Timeout(e) => Some(e@),
            AppError::RateLimit(e) => Some(e@),
            _ => None,
        }
    }

    /// Two errors are of the same kind.
    pub open spec fn same_kind(self, other: AppError) -> bool {
        match self {
            AppError::Database(_) => other is Database,
            AppError::Inference(_) => other is Inference,
            AppError::Embedding(_) => other is Embedding,
            AppError::McpError { .. } => other is McpError,
            AppError::NotFound { .. } => other is NotFound,
            AppError::Crypto(_) => other is Crypto,
            AppError::Hardware(_) => other is Hardware,
            AppError::Io(_) => other is Io,
            AppError::Validation { .. } => other is Validation,
            AppError::Config(_) => other is Config,
            AppError::Internal(_) => other is Internal,
            AppError::Timeout(_) => other is Timeout,
            AppError::RateLimit(_) => other is RateLimit,
        }
    }

    /// `after` is `self` with `ctx` put before its detail; an error with named
    /// fields carries no detail and stays as it is.
    pub open spec fn contextualized(self, ctx: Seq<char>, after: AppError) -> bool {
        match self.detail() {
            Some(detail) => self.same_kind(after) && after.detail() == Some(prefixed(ctx, detail)),
            None => after == self,
        }
    }

    /// The text that a user sees.
    pub open spec fn message_text(self) -> Seq<char> {
        match self {
            AppError::Database(e) => "Database error: "@ + e@,
            AppError::Inference(e) => "Model inference error: "@ + e@,
            AppError::Embedding(e) => "Embedding error: "@ + e@,
            AppError::McpError { mcp_id, message } => "MCP error: "@ + mcp_id@ + " - "@ + message@,
            AppError::NotFound { entity, id } => "Not found: "@ + entity@ + " with id "@ + id@,
            AppError::Crypto(e) => "Encryption error: "@ + e@,
            AppError::Hardware(e) => "Hardware detection error: "@ + e@,
            AppError::Io(e) => "IO error: "@ + e@,
            AppError::Validation { field, message } => "Validation error: "@ + field@ + " - "@
                + message@,
            AppError::Config(e) => "Configuration error: "@ + e@,
            AppError::Internal(e) => "Internal error: "@ + e@,
            AppError::Timeout(e) => "Operation timed out: "@ + e@,
            AppError::RateLimit(e) => "Rate limited: "@ + e@,
        }
    }

    /// Puts a context before the detail of an error.
    pub fn context(self, msg: &str) -> (wrapped: AppError)
        ensures
            self.contextualized(msg@, wrapped),
    {
        match self {
            AppError::Database(e) => AppError::Database(with_prefix(msg, e)),
            AppError::Inference(e) => AppError::Inference(with_prefix(msg, e)),
            AppError::Embedding(e) => AppError::Embedding(with_prefix(msg, e)),
            AppError::Io(e) => AppError::Io(with_prefix(msg, e)),
            AppError::Internal(e) => AppError::Internal(with_prefix(msg, e)),
            AppError::Config(e) => AppError::Config(with_prefix(msg, e)),
            AppError::Crypto(e) => AppError::Crypto(with_prefix(msg, e)),
            AppError::Hardware(e) => AppError::Hardware(with_prefix(msg, e)),
            AppError::Timeout(e) => AppError::Timeout(with_prefix(msg, e)),
            AppError::RateLimit(e) => AppError::RateLimit(with_prefix(msg, e)),
            other => other,
        }
    }

    /// The text that a user sees.
    pub fn message(&self) -> (text: String)
        ensures
            text@ == self.message_text(),
    {
        match self {
            AppError::Database(e) => labelled("Database error: ", e),
            AppError::Inference(e) => labelled("Model inference error: ", e),
            AppError::Embedding(e) => labelled("Embedding error: ", e),
            AppError::McpError { mcp_id, message } => {
                let mut text = labelled("MCP error: ", mcp_id);
                text.append(" - ");
                text.append(message.as_str());
                text
            },
            AppError::NotFound { entity, id } => {
                let mut text = labelled("Not found: ", entity);
                text.append(" with id ");
                text.append(id.as_str());
                text
            },
            AppError::Crypto(e) => labelled("Encryption error: ", e),
            AppError::Hardware(e) => labelled("Hardware detection error: ", e),
            AppError::Io(e) => labelled("IO error: ", e),
            AppError::Validation { field, message } => {
                let mut text = labelled("Validation error: ", field);
                text.append(" - ");
                text.append(message.as_str());
                text
            },
            AppError::Config(e) => labelled("Configuration error: ", e),
            AppError::Internal(e) => labelled("Internal error: ", e),
            AppError::Timeout(e) => labelled("Operation timed out: ", e),
            AppError::RateLimit(e) => labelled("Rate limited: ", e),
        }
    }
}

fn with_prefix(ctx: &str, detail: String) -> (text: String)
    ensures
        text@ == prefixed(ctx@, detail@),
{
    let mut text = ctx.to_owned();
    text.append(": ");
    text.append(detail.as_str());
    text
}

fn labelled(label: &str, detail: &String) -> (text: String)
    ensures
        text@ == label@ + detail@,
{
    let mut text = label.to_owned();
    text.append(detail.as_str());
    text
}

} // verus!
