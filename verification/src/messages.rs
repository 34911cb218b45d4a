//! The request/response payloads the broker exchanges: transient values,
//! never persisted. Policy denials travel inside these payloads as ordinary
//! data, never as transport faults.

use vstd::prelude::*;

verus! {

/// Outcome of a file-read request. On success, `content` holds the file's
/// bytes and `allowed` is true. On a policy denial or an I/O failure,
/// `content` is empty, `allowed` is false and `error` carries the reason:
/// `content` and `error` never both carry meaningful data.
pub struct FileResponse {
    pub content: Vec<u8>,
    pub allowed: bool,
    pub error: String,
}

/// Outcome of a file-write request: whether it happened, and a message —
/// a confirmation on success, the denial or I/O reason otherwise.
pub struct StatusResponse {
    pub success: bool,
    pub message: String,
}

/// Outcome of a command-execution request. `exit_code == -1` means the
/// process did not run to a normal exit: either the command was refused by
/// the allow-list, or the process was ended by a signal.
pub struct CommandResponse {
    pub exit_code: i32,
    pub stdout: String,
    pub stderr: String,
}

/// One chat message on a stream. `session_id` threads a logical
/// conversation through an otherwise stateless stream; the broker keeps no
/// state behind it.
pub struct ChatMessage {
    pub role: String,
    pub content: String,
    pub session_id: String,
}

/// The mathematical value of a chat message: its three fields as
/// character sequences.
pub struct ChatView {
    pub role: Seq<char>,
    pub content: Seq<char>,
    pub session_id: Seq<char>,
}

impl View for ChatMessage {
    type V = ChatView;

    open spec fn view(&self) -> ChatView {
        ChatView { role: self.role@, content: self.content@, session_id: self.session_id@ }
    }
}

} // verus!
