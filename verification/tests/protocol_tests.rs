use zed_vision_sync::protocol::{
    connection_accepted, create_echo_response, create_error_response, create_placeholder_response,
    handle_ai_conversation, respond, respond_now, zed_server_info,
};
use zed_vision_sync::{AIConversationPayload, EchoedValue, ZedVisionMessage};

const ID: u128 = 0xa1a2a3a4b1b2c1c2d1d2d3d4d5d6d7d8;
const ID_TEXT: &str = "a1a2a3a4-b1b2-c1c2-d1d2-d3d4d5d6d7d8";

fn payload(role: &str, content: &str) -> AIConversationPayload {
    AIConversationPayload {
        id: "m1".to_string(),
        session_id: "s1".to_string(),
        role: role.to_string(),
        content: content.to_string(),
        timestamp: 42,
    }
}

#[test]
fn server_info_is_zed_on_macos() {
    let s = zed_server_info();
    assert_eq!((s.name.as_str(), s.version.as_str(), s.platform.as_str()), ("Zed", "1.0", "macOS"));
}

#[test]
fn accepted_message_carries_connection_id() {
    match connection_accepted(77) {
        ZedVisionMessage::ConnectionAccepted { payload } => {
            assert_eq!(payload.connection_id, 77);
            assert_eq!(payload.server_info.name, "Zed");
        }
        other => panic!("unexpected {:?}", other),
    }
}

#[test]
fn error_response_has_uuid_id_and_error_text() {
    match create_error_response("s9".to_string(), "boom", ID, 1234) {
        ZedVisionMessage::AIConversation { payload } => {
            assert_eq!(payload.id, ID_TEXT);
            assert_eq!(payload.session_id, "s9");
            assert_eq!(payload.role, "assistant");
            assert_eq!(payload.content, "Error: boom");
            assert_eq!(payload.timestamp, 1234);
        }
        other => panic!("unexpected {:?}", other),
    }
}

#[test]
fn nil_and_max_uuid_texts() {
    match create_error_response("s".to_string(), "", 0, 0) {
        ZedVisionMessage::AIConversation { payload } => {
            assert_eq!(payload.id, "00000000-0000-0000-0000-000000000000")
        }
        other => panic!("unexpected {:?}", other),
    }
    match create_error_response("s".to_string(), "", u128::MAX, 0) {
        ZedVisionMessage::AIConversation { payload } => {
            assert_eq!(payload.id, "ffffffff-ffff-ffff-ffff-ffffffffffff")
        }
        other => panic!("unexpected {:?}", other),
    }
}

#[test]
fn placeholder_response_quotes_user_message() {
    match create_placeholder_response("s1".to_string(), "hello", ID, 5) {
        ZedVisionMessage::AIConversation { payload } => {
            assert_eq!(
                payload.content,
                "🔄 AI integration in progress. Your message: \"hello\" has been received and will be processed by Zed's AI system."
            );
            assert_eq!(payload.role, "assistant");
            assert_eq!(payload.id, ID_TEXT);
        }
        other => panic!("unexpected {:?}", other),
    }
}

#[test]
fn echo_response_keeps_fields() {
    let m = create_echo_response("i".into(), "s".into(), "system".into(), "c".into(), 3, 99);
    match m {
        ZedVisionMessage::Echo { payload } => {
            assert_eq!(payload.timestamp, 99);
            match payload.original {
                EchoedValue::Conversation(p) => {
                    assert_eq!((p.id.as_str(), p.session_id.as_str(), p.role.as_str(), p.content.as_str(), p.timestamp), ("i", "s", "system", "c", 3));
                }
                other => panic!("unexpected {:?}", other),
            }
        }
        other => panic!("unexpected {:?}", other),
    }
}

#[test]
fn non_user_conversation_is_echoed() {
    match handle_ai_conversation(payload("assistant", "hi"), true, ID, 8) {
        ZedVisionMessage::Echo { payload } => {
            assert_eq!(payload.timestamp, 8);
            assert!(matches!(payload.original, EchoedValue::Conversation(ref p) if p.role == "assistant" && p.content == "hi" && p.timestamp == 42));
        }
        other => panic!("unexpected {:?}", other),
    }
}

#[test]
fn user_conversation_without_workspace_is_error() {
    match handle_ai_conversation(payload("user", "hi"), false, ID, 8) {
        ZedVisionMessage::AIConversation { payload } => {
            assert_eq!(payload.content, "Error: AI service not available");
            assert_eq!(payload.session_id, "s1");
        }
        other => panic!("unexpected {:?}", other),
    }
}

#[test]
fn user_conversation_with_workspace_is_acknowledged() {
    match handle_ai_conversation(payload("user", "hi"), true, ID, 8) {
        ZedVisionMessage::AIConversation { payload } => {
            assert!(payload.content.contains("\"hi\""));
            assert_eq!(payload.timestamp, 8);
        }
        other => panic!("unexpected {:?}", other),
    }
}

#[test]
fn ping_gets_pong() {
    assert!(matches!(respond(ZedVisionMessage::Ping, 1, false, ID, 0), ZedVisionMessage::Pong));
    assert!(matches!(respond_now(ZedVisionMessage::Ping, 1, false), ZedVisionMessage::Pong));
}

#[test]
fn handshake_gets_acceptance() {
    let hs = ZedVisionMessage::ClientHandshake {
        client_type: "visionOS".into(),
        version: "2".into(),
        capabilities: vec!["ai".into()],
    };
    match respond(hs, 31, false, ID, 0) {
        ZedVisionMessage::ConnectionAccepted { payload } => assert_eq!(payload.connection_id, 31),
        other => panic!("unexpected {:?}", other),
    }
}

#[test]
fn other_messages_are_echoed_whole() {
    let m = ZedVisionMessage::ConnectionRequest { device_name: "pro".into() };
    match respond(m, 1, false, ID, 17) {
        ZedVisionMessage::Echo { payload } => {
            assert_eq!(payload.timestamp, 17);
            match payload.original {
                EchoedValue::Message(inner) => {
                    assert!(matches!(*inner, ZedVisionMessage::ConnectionRequest { ref device_name } if device_name == "pro"))
                }
                other => panic!("unexpected {:?}", other),
            }
        }
        other => panic!("unexpected {:?}", other),
    }
    assert!(matches!(respond(ZedVisionMessage::Pong, 1, false, ID, 1), ZedVisionMessage::Echo { .. }));
}

#[test]
fn conversation_message_gets_ai_reply() {
    let m = ZedVisionMessage::AIConversation { payload: payload("user", "yo") };
    match respond(m, 1, false, ID, 2) {
        ZedVisionMessage::AIConversation { payload } => {
            assert_eq!(payload.content, "Error: AI service not available");
            assert_eq!(payload.id, ID_TEXT);
        }
        other => panic!("unexpected {:?}", other),
    }
}
