use vstd::prelude::*;
use vstd::string::*;

verus! {

#[verifier::external_type_specification]
#[verifier::external_body]
pub struct ExJsonValue(serde_json::Value);

/// A message of the WebSocket protocol between the editor and a device.
#[derive(Debug)]
pub enum ZedVisionMessage {
    ConnectionRequest { device_name: String },
    ConnectionAccepted { payload: ConnectionAcceptedPayload },
    ConnectionRejected { reason: String },
    ClientHandshake { client_type: String, version: String, capabilities: Vec<String> },
    EditorStateSync { payload: EditorStateSyncPayload },
    AIConversation { payload: AIConversationPayload },
    Ping,
    Pong,
    Echo { payload: EchoPayload },
}

/// Sent when the server accepts a device; the id is the UUID of the
/// connection as a 128-bit number.
#[derive(Debug, Clone)]
pub struct ConnectionAcceptedPayload {
    pub connection_id: u128,
    pub server_info: ServerInfo,
}

/// The editor's cursor and a preview of the open file.
#[derive(Debug, Clone)]
pub struct EditorStateSyncPayload {
    pub file_path: Option<String>,
    pub cursor_line: u32,
    pub cursor_column: u32,
    pub content_preview: String,
}

/// One message of an AI conversation.
#[derive(Debug, Clone)]
pub struct AIConversationPayload {
    pub id: String,
    pub session_id: String,
    pub role: String,
    pub content: String,
    pub timestamp: u64,
}

/// What an echo carries back, with the time of the echo in milliseconds
/// since the Unix epoch.
#[derive(Debug)]
pub struct EchoPayload {
    pub original: EchoedValue,
    pub timestamp: u64,
}

/// The value that an echo returns: a message the server received, the
/// fields of a conversation message, or JSON received from a device.
#[derive(Debug)]
pub enum EchoedValue {
    Message(Box<ZedVisionMessage>),
    Conversation(AIConversationPayload),
    Json(serde_json::Value),
}

/// How the server describes itself.
#[derive(Debug, Clone)]
pub struct ServerInfo {
    pub name: String,
    pub version: String,
    pub platform: String,
}

/// Who wrote a message of an AI conversation.
#[derive(Debug, Clone, Copy, PartialEq, Eq, Structural)]
pub enum MessageRole {
    User,
    Assistant,
    System,
}

/// A message of an AI conversation with a typed role.
#[derive(Debug, Clone)]
pub struct AIConversationMessage {
    pub id: String,
    pub session_id: String,
    pub role: MessageRole,
    pub content: String,
    pub timestamp: u64,
}

/// The lowercase hexadecimal digit of `d` (`d < 16`).
pub open spec fn hex_digit(d: nat) -> char {
    if d < 10 {
        (d + 48) as char
    } else {
        (d + 87) as char
    }
}

/// The last `n` hexadecimal digits of `v`, most significant first.
pub open spec fn hex_field(v: nat, n: nat) -> Seq<char>
    decreases n,
{
    if n == 0 {
        Seq::<char>::empty()
    } else {
        hex_field(v / 16, (n - 1) as nat).push(hex_digit(v % 16))
    }
}

/// The hyphenated lowercase text of the UUID whose 128 bits are `v`
/// (big-endian): 8, 4, 4, 4 and 12 hexadecimal digits joined by '-'.
pub open spec fn uuid_text(v: u128) -> Seq<char> {
    hex_field(v as nat / 0x1000_0000_0000_0000_00000_0000, 8) + seq!['-'] + hex_field(
        v as nat / 0x1000_0000_0000_0000_00000,
        4,
    ) + seq!['-'] + hex_field(v as nat / 0x1_0000_0000_0000_0000, 4) + seq!['-'] + hex_field(
        v as nat / 0x1_0000_0000_0000,
        4,
    ) + seq!['-'] + hex_field(v as nat, 12)
}

/// `uuid::Uuid::from_u128(id).to_string()`: the UUID with these bits in its
/// hyphenated lowercase form.
#[verifier::external_body]
fn uuid_string(id: u128) -> (s: String)
    ensures
        s@ == uuid_text(id),
{
    uuid::Uuid::from_u128(id).to_string()
}

/// A version-4 UUID: the version nibble (bits 76 to 79) is 4 and the two
/// variant bits (62 and 63) are 0b10.
pub open spec fn is_v4_uuid(id: u128) -> bool {
    &&& (id as nat / 0x1000_0000_0000_0000_0000) % 16 == 4
    &&& (id as nat / 0x4000_0000_0000_0000) % 4 == 2
}

/// `uuid::Uuid::new_v4()` as a 128-bit number: random bits with the
/// version set to 4 and the variant to RFC 4122. Only those bits are
/// stated; the rest are random.
#[verifier::external_body]
pub(crate) fn new_uuid() -> (id: u128)
    ensures
        is_v4_uuid(id),
{
    uuid::Uuid::new_v4().as_u128()
}

/// The server describes itself as Zed 1.0 on macOS.
pub open spec fn is_zed_server_info(s: ServerInfo) -> bool {
    &&& s.name@ == "Zed"@
    &&& s.version@ == "1.0"@
    &&& s.platform@ == "macOS"@
}

/// `m` accepts the connection with id `connection_id`.
pub open spec fn is_connection_accepted(m: ZedVisionMessage, connection_id: u128) -> bool {
    &&& m matches ZedVisionMessage::ConnectionAccepted { payload }
    &&& payload.connection_id == connection_id
    &&& is_zed_server_info(payload.server_info)
}

/// `m` is the assistant's message `content` in session `session_id`, with
/// message id `message_id` and time `now`.
pub open spec fn is_assistant_reply(
    m: ZedVisionMessage,
    message_id: u128,
    session_id: Seq<char>,
    content: Seq<char>,
    now: u64,
) -> bool {
    &&& m matches ZedVisionMessage::AIConversation { payload }
    &&& payload.id@ == uuid_text(message_id)
    &&& payload.session_id@ == session_id
    &&& payload.role@ == "assistant"@
    &&& payload.content@ == content
    &&& payload.timestamp == now
}

/// The text with which the server acknowledges a user's message.
pub open spec fn placeholder_text(user_content: Seq<char>) -> Seq<char> {
    "🔄 AI integration in progress. Your message: \""@ + user_content
        + "\" has been received and will be processed by Zed's AI system."@
}

/// The echo of a conversation message's fields at `now`.
pub open spec fn conversation_echo(p: AIConversationPayload, now: u64) -> ZedVisionMessage {
    ZedVisionMessage::Echo {
        payload: EchoPayload { original: EchoedValue::Conversation(p), timestamp: now },
    }
}

/// The reply to a conversation message `p`: other roles than "user" are
/// echoed; a user's message gets an error where no workspace is available,
/// and the acknowledgement otherwise.
pub open spec fn is_ai_reply(
    p: AIConversationPayload,
    workspace_available: bool,
    message_id: u128,
    now: u64,
    r: ZedVisionMessage,
) -> bool {
    if p.role@ != "user"@ {
        r == conversation_echo(p, now)
    } else if !workspace_available {
        is_assistant_reply(
            r,
            message_id,
            p.session_id@,
            "Error: "@ + "AI service not available"@,
            now,
        )
    } else {
        is_assistant_reply(r, message_id, p.session_id@, placeholder_text(p.content@), now)
    }
}

/// The reply to a message received on connection `connection_id`: a ping
/// gets a pong, a handshake the acceptance of the connection, a
/// conversation message the reply above, and anything else is echoed.
pub open spec fn is_response(
    msg: ZedVisionMessage,
    connection_id: u128,
    workspace_available: bool,
    message_id: u128,
    now: u64,
    r: ZedVisionMessage,
) -> bool {
    match msg {
        ZedVisionMessage::Ping => r == ZedVisionMessage::Pong,
        ZedVisionMessage::ClientHandshake { .. } => is_connection_accepted(r, connection_id),
        ZedVisionMessage::AIConversation { payload } => is_ai_reply(
            payload,
            workspace_available,
            message_id,
            now,
            r,
        ),
        _ => r == ZedVisionMessage::Echo {
            payload: EchoPayload { original: EchoedValue::Message(Box::new(msg)), timestamp: now },
        },
    }
}

/// How the server describes itself: Zed 1.0 on macOS.
pub fn zed_server_info() -> (s: ServerInfo)
    ensures
        is_zed_server_info(s),
{
    ServerInfo {
        name: String::from_str("Zed"),
        version: String::from_str("1.0"),
        platform: String::from_str("macOS"),
    }
}

/// The message that accepts connection `connection_id`.
pub fn connection_accepted(connection_id: u128) -> (m: ZedVisionMessage)
    ensures
        is_connection_accepted(m, connection_id),
{
    ZedVisionMessage::ConnectionAccepted {
        payload: ConnectionAcceptedPayload { connection_id, server_info: zed_server_info() },
    }
}

fn assistant_reply(session_id: String, content: String, message_id: u128, now: u64) -> (m:
    ZedVisionMessage)
    ensures
        is_assistant_reply(m, message_id, session_id@, content@, now),
{
    ZedVisionMessage::AIConversation {
        payload: AIConversationPayload {
            id: uuid_string(message_id),
            session_id,
            role: String::from_str("assistant"),
            content,
            timestamp: now,
        },
    }
}

/// The assistant's report of `error` in session `session_id`: "Error: "
/// followed by the error.
pub fn create_error_response(session_id: String, error: &str, message_id: u128, now: u64) -> (m:
    ZedVisionMessage)
    ensures
        is_assistant_reply(m, message_id, session_id@, "Error: "@ + error@, now),
{
    let mut content = String::from_str("Error: ");
    content.append(error);
    assistant_reply(session_id, content, message_id, now)
}

/// The assistant's acknowledgement of the user's message `user_content`.
pub fn create_placeholder_response(
    session_id: String,
    user_content: &str,
    message_id: u128,
    now: u64,
) -> (m: ZedVisionMessage)
    ensures
        is_assistant_reply(m, message_id, session_id@, placeholder_text(user_content@), now),
{
    let mut content = String::from_str("🔄 AI integration in progress. Your message: \"");
    content.append(user_content);
    content.append("\" has been received and will be processed by Zed's AI system.");
    assistant_reply(session_id, content, message_id, now)
}

/// The echo, at `now`, of a conversation message's fields.
pub fn create_echo_response(
    id: String,
    session_id: String,
    role: String,
    content: String,
    timestamp: u64,
    now: u64,
) -> (m: ZedVisionMessage)
    ensures
        m == conversation_echo(AIConversationPayload { id, session_id, role, content, timestamp }, now),
{
    ZedVisionMessage::Echo {
        payload: EchoPayload {
            original: EchoedValue::Conversation(
                AIConversationPayload { id, session_id, role, content, timestamp },
            ),
            timestamp: now,
        },
    }
}

/// The reply to the conversation message `payload`.
pub fn handle_ai_conversation(
    payload: AIConversationPayload,
    workspace_available: bool,
    message_id: u128,
    now: u64,
) -> (r: ZedVisionMessage)
    ensures
        is_ai_reply(payload, workspace_available, message_id, now, r),
{
    let user = String::from_str("user");
    if !(payload.role == user) {
        let AIConversationPayload { id, session_id, role, content, timestamp } = payload;
        return create_echo_response(id, session_id, role, content, timestamp, now);
    }
    if !workspace_available {
        return create_error_response(
            payload.session_id,
            "AI service not available",
            message_id,
            now,
        );
    }
    let AIConversationPayload { id: _, session_id, role: _, content, timestamp: _ } = payload;
    create_placeholder_response(session_id, content.as_str(), message_id, now)
}

/// The reply to `msg`, received on connection `connection_id`.
pub fn respond(
    msg: ZedVisionMessage,
    connection_id: u128,
    workspace_available: bool,
    message_id: u128,
    now: u64,
) -> (r: ZedVisionMessage)
    ensures
        is_response(msg, connection_id, workspace_available, message_id, now, r),
{
    match msg {
        ZedVisionMessage::Ping => ZedVisionMessage::Pong,
        ZedVisionMessage::ClientHandshake { .. } => connection_accepted(connection_id),
        ZedVisionMessage::AIConversation { payload } => handle_ai_conversation(
            payload,
            workspace_available,
            message_id,
            now,
        ),
        other => ZedVisionMessage::Echo {
            payload: EchoPayload { original: EchoedValue::Message(Box::new(other)), timestamp: now },
        },
    }
}

/// The reply to `msg` with a fresh random message id and the current time.
pub fn respond_now(msg: ZedVisionMessage, connection_id: u128, workspace_available: bool) -> (r:
    ZedVisionMessage)
    ensures
        exists|message_id: u128, now: u64|
            is_v4_uuid(message_id) && is_response(
                msg,
                connection_id,
                workspace_available,
                message_id,
                now,
                r,
            ),
{
    let message_id = new_uuid();
    let now = crate::connection::unix_millis_now();
    respond(msg, connection_id, workspace_available, message_id, now)
}

} // verus!
