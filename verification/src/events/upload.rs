//! File upload progress and token usage.

use vstd::prelude::*;

use super::content::FileRef;

verus! {

/// File upload event.
#[derive(Debug, Clone)]
pub enum UploadEvent {
    /// Upload progress.
    Progress { name: String, uploaded: u64, total: u64 },
    /// One file was uploaded.
    Completed { name: String, media_source: FileRef },
    /// One file failed to upload.
    Error { name: String, error: String },
}

/// Token usage.
#[derive(Debug, Default, Clone, PartialEq)]
pub struct TokenUsage {
    pub id: String,
    pub message: String,
    pub prompt_tokens: u32,
    pub completion_tokens: u32,
    pub total_tokens: u32,
}

} // verus!
