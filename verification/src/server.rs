//! The broker service: classifies and validates each request, delegates
//! path decisions to the shared sandbox, screens commands against a fixed
//! allow-list, and shapes every outcome — denials included — into ordinary
//! response payloads.

use std::sync::Arc;
use vstd::prelude::*;
use vstd::string::StringExecFns;

use crate::messages::{ChatMessage, ChatView, CommandResponse, FileResponse, StatusResponse};
use crate::sandbox::Sandbox;

verus! {

/// The fixed allow-list of executable names: the only commands the broker
/// will ever spawn. Exact, case-sensitive names; nothing is interpreted.
pub open spec fn command_allowed(c: Seq<char>) -> bool {
    ||| c == "echo"@
    ||| c == "ls"@
    ||| c == "dir"@
    ||| c == "cat"@
    ||| c == "type"@
    ||| c == "date"@
}

/// The denial text for a command missing from the allow-list.
pub open spec fn command_denial_msg(command: Seq<char>) -> Seq<char> {
    "DENIED: command '"@ + command + "' is not in the allowed list"@
}

/// The reply the broker makes to one inbound chat message: the assistant
/// role, the content echoed behind a marker, the same session id.
pub open spec fn reply_of(m: ChatView) -> ChatView {
    ChatView { role: "assistant"@, content: "[echo] "@ + m.content, session_id: m.session_id }
}

/// Names the text that lossy decoding gives for `bytes`: a function of the
/// bytes alone.
pub uninterp spec fn lossy_text_of(bytes: Seq<u8>) -> Seq<char>;

/// The broker service: a shared, read-only handle to the one sandbox,
/// borrowed concurrently by every request.
pub struct AgentBrokerService {
    sandbox: Arc<Sandbox>,
}

impl AgentBrokerService {
    /// The workspace root of the sandbox behind this service.
    pub closed spec fn root(&self) -> Seq<char> {
        self.sandbox.root()
    }

    /// Well formed exactly when the sandbox behind it is.
    pub closed spec fn wf(&self) -> bool {
        self.sandbox.wf()
    }

    /// Takes ownership of the sandbox and shares it behind a
    /// reference-counted handle; nothing mutates it afterwards.
    pub fn new(sandbox: Sandbox) -> (s: Self)
        ensures
            s.root() == sandbox.root(),
            s.wf() == sandbox.wf(),
    {
        AgentBrokerService { sandbox: Arc::new(sandbox) }
    }

    /// The sandbox this service decides with.
    pub fn sandbox(&self) -> (s: &Sandbox)
        ensures
            s.root() == self.root(),
            s.wf() == self.wf(),
    {
        &self.sandbox
    }

    /// Shapes the file-read response from the outcome of a gated read:
    /// the bytes on success; on a denial or an I/O failure, empty content
    /// and the reason, never both.
    pub fn file_read_response(&self, outcome: Result<Vec<u8>, String>) -> (r: FileResponse)
        ensures
            outcome matches Ok(content) ==> r.allowed && r.content@ == content@ && r.error@
                == Seq::<char>::empty(),
            outcome matches Err(reason) ==> !r.allowed && r.content@ == Seq::<u8>::empty()
                && r.error@ == reason@,
    {
        match outcome {
            Ok(content) => FileResponse { content, allowed: true, error: String::new() },
            Err(reason) => {
                let content: Vec<u8> = Vec::new();
                proof {
                    assert(content@ =~= Seq::<u8>::empty());
                }
                FileResponse { content, allowed: false, error: reason }
            },
        }
    }

    /// Shapes the file-write response from the outcome of a gated write:
    /// a fixed confirmation on success, the denial or I/O reason otherwise.
    pub fn file_write_response(&self, outcome: Result<(), String>) -> (r: StatusResponse)
        ensures
            outcome is Ok ==> r.success && r.message@ == "File written successfully"@,
            outcome matches Err(reason) ==> !r.success && r.message@ == reason@,
    {
        match outcome {
            Ok(()) => StatusResponse {
                success: true,
                message: "File written successfully".to_owned(),
            },
            Err(reason) => StatusResponse { success: false, message: reason },
        }
    }

    /// Screens a command against the allow-list before anything is
    /// spawned. `None` means the command may run; `Some` carries the
    /// complete denial response — exit code -1, no output, the denial
    /// text — and the caller spawns nothing.
    pub fn screen_command(&self, command: &str) -> (r: Option<CommandResponse>)
        ensures
            r is None <==> command_allowed(command@),
            r matches Some(resp) ==> resp.exit_code == -1 && resp.stdout@
                == Seq::<char>::empty() && resp.stderr@ == command_denial_msg(command@),
    {
        if is_command_allowed(command) {
            None
        } else {
            Some(
                CommandResponse {
                    exit_code: -1,
                    stdout: String::new(),
                    stderr: command_denial_message(command),
                },
            )
        }
    }

    /// Shapes the response for a command that did run: the exit code as
    /// the process reported it, -1 when a signal ended it before a normal
    /// exit, and each output channel decoded as text with invalid byte
    /// sequences replaced rather than failing the request.
    pub fn command_response(&self, exit_code: Option<i32>, stdout: &[u8], stderr: &[u8]) -> (r:
        CommandResponse)
        ensures
            r.exit_code == (match exit_code {
                Some(code) => code,
                None => -1i32,
            }),
            r.stdout@ == lossy_text_of(stdout@),
            r.stderr@ == lossy_text_of(stderr@),
    {
        CommandResponse {
            exit_code: match exit_code {
                Some(code) => code,
                None => -1,
            },
            stdout: utf8_lossy(stdout),
            stderr: utf8_lossy(stderr),
        }
    }

    /// Builds the reply to one inbound chat message: `reply_of` its value.
    pub fn make_reply(&self, msg: &ChatMessage) -> (r: ChatMessage)
        ensures
            r@ == reply_of(msg@),
    {
        let mut content = "[echo] ".to_owned();
        content.append(msg.content.as_str());
        ChatMessage { role: "assistant".to_owned(), content, session_id: msg.session_id.clone() }
    }

    /// Consumes one inbound message of a relay and produces its reply: the
    /// reply to this message and no other, after every earlier reply.
    pub fn chat_message(&self, relay: &mut ChatRelay, msg: &ChatMessage) -> (r: ChatMessage)
        ensures
            old(relay).wf() ==> final(relay).wf(),
            final(relay).inbound() == old(relay).inbound().push(msg@),
            final(relay).outbound() == old(relay).outbound().push(r@),
            r@ == reply_of(msg@),
    {
        let reply = self.make_reply(msg);
        proof {
            let was_wf = relay.wf();
            relay.inbound@ = relay.inbound@.push(msg@);
            relay.outbound@ = relay.outbound@.push(reply@);
            if was_wf {
                assert(relay.outbound@ =~= relay.inbound@.map_values(|m: ChatView| reply_of(m)));
            }
        }
        reply
    }
}

/// One chat stream's relay state: the inbound messages consumed and the
/// replies produced, in order. The stream itself carries the values; the
/// relay records them so the one-reply-per-message order is a stated
/// invariant, not a hope. No state outlives the stream.
pub struct ChatRelay {
    inbound: Ghost<Seq<ChatView>>,
    outbound: Ghost<Seq<ChatView>>,
}

impl ChatRelay {
    /// The inbound messages consumed so far, in order.
    pub closed spec fn inbound(&self) -> Seq<ChatView> {
        self.inbound@
    }

    /// The replies produced so far, in order.
    pub closed spec fn outbound(&self) -> Seq<ChatView> {
        self.outbound@
    }

    /// One reply per inbound message, in inbound order.
    pub closed spec fn wf(&self) -> bool {
        self.outbound@ == self.inbound@.map_values(|m: ChatView| reply_of(m))
    }

    /// A fresh relay for one stream: nothing consumed, nothing produced.
    pub fn new() -> (r: ChatRelay)
        ensures
            r.wf(),
            r.inbound() == Seq::<ChatView>::empty(),
            r.outbound() == Seq::<ChatView>::empty(),
    {
        let relay = ChatRelay { inbound: Ghost(Seq::empty()), outbound: Ghost(Seq::empty()) };
        proof {
            assert(relay.outbound@ =~= relay.inbound@.map_values(|m: ChatView| reply_of(m)));
        }
        relay
    }
}

/// Streaming order: on a well-formed relay the outbound sequence is
/// exactly the replies to the inbound sequence — the same length, the
/// reply to the i-th inbound message at position i, and each reply
/// carrying its source message's session id.
pub proof fn lemma_stream_order(relay: ChatRelay)
    requires
        relay.wf(),
    ensures
        relay.outbound().len() == relay.inbound().len(),
        forall|i: int|
            0 <= i < relay.inbound().len() ==> relay.outbound()[i] == reply_of(
                relay.inbound()[i],
            ),
        forall|i: int|
            0 <= i < relay.inbound().len() ==> relay.outbound()[i].session_id
                == relay.inbound()[i].session_id,
{
}

/// Decides membership in the allow-list.
pub fn is_command_allowed(command: &str) -> (b: bool)
    ensures
        b == command_allowed(command@),
{
    str_eq(command, "echo") || str_eq(command, "ls") || str_eq(command, "dir") || str_eq(
        command,
        "cat",
    ) || str_eq(command, "type") || str_eq(command, "date")
}

/// Builds the denial text for a command missing from the allow-list.
fn command_denial_message(command: &str) -> (r: String)
    ensures
        r@ == command_denial_msg(command@),
{
    let mut s = "DENIED: command '".to_owned();
    s.append(command);
    s.append("' is not in the allowed list");
    s
}

/// Relies on String::from_utf8_lossy: decodes the bytes as text, putting
/// replacement characters for invalid sequences; the result depends on the
/// bytes alone.
#[verifier::external_body]
fn utf8_lossy(bytes: &[u8]) -> (r: String)
    ensures
        r@ == lossy_text_of(bytes@),
{
    String::from_utf8_lossy(bytes).into_owned()
}

/// Decides string equality by character comparison.
fn str_eq(a: &str, b: &str) -> (r: bool)
    ensures
        r == (a@ == b@),
{
    let alen = a.unicode_len();
    let blen = b.unicode_len();
    if alen != blen {
        return false;
    }
    let mut i: usize = 0;
    while i < alen
        invariant
            i <= alen,
            alen == a@.len(),
            alen == b@.len(),
            forall|j: int| 0 <= j < i ==> a@[j] == b@[j],
        decreases alen - i,
    {
        if a.get_char(i) != b.get_char(i) {
            return false;
        }
        i = i + 1;
    }
    assert(a@ =~= b@);
    true
}

} // verus!
