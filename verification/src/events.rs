//! Payloads of the events the application emits to its interface while
//! transcribing and chatting about a transcription. Emitting them is the
//! interface layer's work; the shapes live here.

use vstd::prelude::*;

verus! {

/// Progress of a transcription run.
#[derive(Debug, Clone)]
pub struct TranscriptionStatusEvent {
    /// The recording being transcribed.
    pub recording_path: String,
    /// "started", "completed" or "error".
    pub status: String,
    /// The error message, when `status` is "error".
    pub error: Option<String>,
}

/// Request to open the transcription window for a recording.
#[derive(Debug, Clone)]
pub struct TranscriptionOpenEvent {
    /// The recording whose transcription to show.
    pub recording_path: String,
}

/// One message of a chat about a transcription.
#[derive(Debug, Clone)]
pub struct ChatMessageDto {
    /// "user" or "assistant".
    pub role: String,
    /// The message text.
    pub content: String,
}

/// One streamed fragment of an assistant reply.
#[derive(Debug, Clone)]
pub struct TranscriptionChatStreamEvent {
    /// Which chat the fragment belongs to.
    pub chat_id: String,
    /// The new text fragment.
    pub delta: String,
}

/// End of an assistant reply.
#[derive(Debug, Clone)]
pub struct TranscriptionChatDoneEvent {
    /// Which chat finished.
    pub chat_id: String,
}

} // verus!
