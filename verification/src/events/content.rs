//! Multimodal content parts.

use vstd::prelude::*;

verus! {

/// File reference (the fields the protocol carries).
#[derive(Debug, Clone, PartialEq)]
pub struct FileRef {
    /// Remote URL.
    pub remote_url: String,
    /// Local file path.
    pub local_uri: String,
    /// Expiry time of the remote URL, if any.
    pub remote_expires_at: Option<String>,
    /// MIME type.
    pub mime_type: String,
    /// Whether the file must be organized by the receiver.
    pub require_organized: bool,
    /// File size in bytes.
    pub size_bytes: u64,
    /// SHA-256 digest (empty when unknown).
    pub sha256: String,
}

/// Text content part.
#[derive(Debug, Clone, PartialEq)]
pub struct TextPart {
    /// Text content.
    pub text: String,
    /// Optional part id (for tracing across events).
    pub part_id: Option<String>,
}

/// Image content part.
#[derive(Debug, Clone, PartialEq)]
pub struct ImagePart {
    /// Image source.
    pub source: FileRef,
    /// Detail hint (low/high/auto).
    pub detail: Option<String>,
    /// Width in pixels.
    pub width: Option<u32>,
    /// Height in pixels.
    pub height: Option<u32>,
    /// Part id.
    pub part_id: Option<String>,
}

/// Audio content part.
#[derive(Debug, Clone, PartialEq)]
pub struct AudioPart {
    /// Audio source.
    pub source: FileRef,
    /// Sample rate.
    pub sample_rate: Option<u32>,
    /// Number of channels.
    pub channels: Option<u16>,
    /// Duration in milliseconds.
    pub duration_ms: Option<u64>,
    /// Part id.
    pub part_id: Option<String>,
}

/// Video content part.
#[derive(Debug, Clone, PartialEq)]
pub struct VideoPart {
    /// Video source.
    pub source: FileRef,
    /// Duration in milliseconds.
    pub duration_ms: Option<u64>,
    /// Frame rate.
    pub fps: Option<u32>,
    /// Width in pixels.
    pub width: Option<u32>,
    /// Height in pixels.
    pub height: Option<u32>,
    /// Part id.
    pub part_id: Option<String>,
}

/// A multimodal content part.
#[derive(Debug, Clone, PartialEq)]
pub enum ContentPart {
    Text(TextPart),
    Image(ImagePart),
    Audio(AudioPart),
    Video(VideoPart),
}

} // verus!
