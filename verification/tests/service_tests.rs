use zed_vision_sync::network::network_info_from;
use zed_vision_sync::server::{
    close_session, discovery_info, discovery_port, handle_frame, handle_frame_now, open_session,
    open_session_now, IncomingFrame, ServerTask, ServiceManager, SessionAction,
};
use zed_vision_sync::service::launch;
use zed_vision_sync::ui::{DockPosition, Icon, IconSize, PanelAction, Tone};
use zed_vision_sync::config::config_for_host;
use zed_vision_sync::{
    Connection, ConnectionRegistry, ServiceEffect, ServiceEvent, VisionSyncPanel, ZedVisionMessage,
    ZedVisionStatusButton, ZedVisionSync,
};

const SEC: i128 = 1_000_000_000;

fn status(e: &ServiceEffect) -> Option<bool> {
    match e {
        ServiceEffect::Emit(ServiceEvent::StatusChanged { running }) => Some(*running),
        _ => None,
    }
}

#[test]
fn start_emits_and_starts_servers_once() {
    let mut s = ZedVisionSync::new();
    assert!(!s.is_running());
    let e = s.start_service();
    assert!(s.is_running());
    assert_eq!(e.len(), 3);
    assert_eq!(status(&e[0]), Some(true));
    assert!(matches!(e[1], ServiceEffect::StartNetworkServices { workspace_available: false }));
    assert!(matches!(e[2], ServiceEffect::StartConnectionCleanup));
    assert!(s.start_service().is_empty());
}

#[test]
fn stop_emits_only_when_running() {
    let mut s = ZedVisionSync::new();
    assert!(s.stop_service().is_empty());
    s.start_service();
    let e = s.stop_service();
    assert_eq!(e.len(), 1);
    assert_eq!(status(&e[0]), Some(false));
    assert!(!s.is_running());
    assert!(s.stop_service().is_empty());
}

#[test]
fn toggle_twice_restores_running_state() {
    let mut s = ZedVisionSync::new();
    s.toggle_service();
    assert!(s.is_running());
    s.toggle_service();
    assert!(!s.is_running());
    s.toggle_service();
    s.toggle_service();
    assert!(!s.is_running());
}

#[test]
fn update_config_restarts_running_service() {
    let mut s = ZedVisionSync::new();
    assert!(s.update_config(config_for_host("h")).is_empty());
    s.start_service();
    let e = s.update_config(config_for_host("h"));
    assert!(s.is_running());
    let statuses: Vec<Option<bool>> = e.iter().map(status).collect();
    assert_eq!(statuses, vec![Some(false), Some(true), None, None]);
}

#[test]
fn get_config_is_default() {
    let s = ZedVisionSync::new();
    let c = s.get_config();
    assert!(c.service_name.starts_with("Zed-"));
    assert_eq!(c.port, 8765);
}

#[test]
fn launch_starts_when_enabled() {
    let (s, e) = launch(&config_for_host("x"));
    assert!(s.is_running());
    assert_eq!(e.len(), 3);
    let mut off = config_for_host("x");
    off.enabled = false;
    let (s2, e2) = launch(&off);
    assert!(!s2.is_running());
    assert!(e2.is_empty());
}

#[test]
fn observers_follow_service_events() {
    let mut s = ZedVisionSync::new();
    let mut button = ZedVisionStatusButton::new(s.is_running());
    let mut panel = VisionSyncPanel::new(s.is_running(), network_info_from(None));
    for _ in 0..3 {
        let e = s.toggle_service();
        button.observe(&e);
        panel.observe(&e);
        assert_eq!(button.is_highlighted(), s.is_running());
        assert_eq!(panel.render_view(&config_for_host("h"), &vec![], 0).running, s.is_running());
    }
    let e = s.update_config(config_for_host("h"));
    button.observe(&e);
    assert_eq!(button.is_highlighted(), s.is_running());
}

#[test]
fn button_tooltip_and_events() {
    let mut b = ZedVisionStatusButton::new(false);
    assert_eq!(b.tooltip(), "Vision Pro Sync");
    assert!(!b.on_service_event(&ServiceEvent::ConnectionRemoved { connection_id: 1 }));
    assert!(b.on_service_event(&ServiceEvent::StatusChanged { running: true }));
    assert_eq!(b.tooltip(), "Vision Pro Sync (Running)");
    assert!(b.is_highlighted());
}

#[test]
fn panel_events_always_redraw() {
    let mut p = VisionSyncPanel::new(true, network_info_from(None));
    let c = Connection::new(1, "d".into(), 0);
    assert!(p.on_service_event(&ServiceEvent::ConnectionAdded { connection: c }));
    assert_eq!(p.toggle_label(), "Stop");
    assert!(p.on_service_event(&ServiceEvent::StatusChanged { running: false }));
    assert_eq!(p.toggle_label(), "Start");
}

#[test]
fn panel_docks_on_sides_only() {
    let p = VisionSyncPanel::new(false, network_info_from(None));
    assert!(p.position_is_valid(DockPosition::Left));
    assert!(p.position_is_valid(DockPosition::Right));
    assert!(!p.position_is_valid(DockPosition::Bottom));
    assert!(matches!(p.position(), DockPosition::Right));
}

#[test]
fn panel_view_while_running() {
    let p = VisionSyncPanel::new(true, network_info_from(Some("192.168.0.7".into())));
    let conns = vec![Connection::new(1, "Device-a".into(), 0), Connection::new(2, "Device-b".into(), 50 * SEC)];
    let v = p.render_view(&config_for_host("mac"), &conns, 65 * SEC);
    assert_eq!(v.toggle_label, "Stop");
    assert_eq!((v.status_icon, v.status_tone), (Icon::Check, Tone::Success));
    assert_eq!((v.port_icon, v.port_tone), (Icon::Server, Tone::Accent));
    assert_eq!((v.network_icon, v.network_tone), (Icon::Server, Tone::Info));
    assert_eq!((v.rows[0].icon, v.rows[0].icon_tone, v.rows[0].label_tone), (Icon::Person, Tone::Error, Tone::Error));
    assert_eq!((v.rows[1].icon, v.rows[1].icon_tone, v.rows[1].label_tone), (Icon::Person, Tone::Success, Tone::Muted));
    assert_eq!(v.status_label, "Service Running - Zed-mac");
    assert_eq!(v.port_label, Some("Port: 8765".to_string()));
    assert_eq!(v.local_ip, "192.168.0.7");
    assert_eq!(v.network_segment, "192.168.0.0/24");
    assert_eq!(v.interface_name, "en0");
    assert_eq!(v.devices_label, "Connected Devices (2)");
    assert_eq!(v.rows.len(), 2);
    assert_eq!(v.rows[0].device_name, "Device-a");
    assert!(v.rows[0].timed_out);
    assert_eq!(v.rows[0].activity_label, "Last activity: 65s ago");
    assert!(!v.rows[1].timed_out);
    assert_eq!(v.rows[1].activity_label, "Last activity: 15s ago");
    assert!(!v.show_waiting);
}

#[test]
fn panel_view_while_stopped_or_waiting() {
    let stopped = VisionSyncPanel::new(false, network_info_from(None));
    let v = stopped.render_view(&config_for_host("m"), &vec![], 0);
    assert_eq!(v.toggle_label, "Start");
    assert_eq!(v.status_label, "Service Stopped");
    assert_eq!((v.status_icon, v.status_tone), (Icon::Close, Tone::Muted));
    assert_eq!(v.port_label, None);
    assert_eq!(v.devices_label, "Connected Devices (0)");
    assert!(!v.show_waiting);
    let running = VisionSyncPanel::new(true, network_info_from(None));
    assert!(running.render_view(&config_for_host("m"), &vec![], 0).show_waiting);
}

#[test]
fn discovery_answer() {
    let d = discovery_info("Zed-mac", None, 8765);
    assert_eq!(d.name, "Zed-mac");
    assert_eq!(d.websocket_url, "ws://0.0.0.0:8765");
    assert_eq!((d.version.as_str(), d.platform.as_str(), d.app.as_str()), ("1.0", "macOS", "Zed"));
    let d2 = discovery_info("n", Some("10.1.2.3".into()), 9000);
    assert_eq!(d2.websocket_url, "ws://10.1.2.3:9000");
    assert_eq!(discovery_port(8765), 8766);
}

#[test]
fn session_lifecycle_restores_registry() {
    let mut r = ConnectionRegistry::new();
    r.add(Connection::new(1, "other".into(), 0));
    let welcome = open_session(&mut r, 55, "10.0.0.9:1234", 1_000);
    assert!(matches!(welcome, ZedVisionMessage::ConnectionAccepted { ref payload } if payload.connection_id == 55));
    assert_eq!(r.len(), 2);
    assert_eq!(r.snapshot()[1].device_name, "Device-10.0.0.9:1234");
    let a = handle_frame(&mut r, 55, IncomingFrame::Text(Some(ZedVisionMessage::Ping)), false, 0, 9_000);
    let echoed = handle_frame(&mut r, 55, IncomingFrame::Text(Some(ZedVisionMessage::Pong)), false, 0, 7 * SEC);
    match echoed {
        SessionAction::Reply(ZedVisionMessage::Echo { payload }) => assert_eq!(payload.timestamp, 7_000),
        other => panic!("unexpected {:?}", other),
    }
    let a2 = handle_frame(&mut r, 55, IncomingFrame::Text(Some(ZedVisionMessage::Ping)), false, 0, 9_000);
    assert!(matches!(a2, SessionAction::Reply(ZedVisionMessage::Pong)));
    assert!(matches!(a, SessionAction::Reply(ZedVisionMessage::Pong)));
    assert_eq!(r.snapshot()[1].last_activity, 9_000);
    assert_eq!(r.snapshot()[0].last_activity, 0);
    let b = handle_frame(&mut r, 55, IncomingFrame::Text(None), false, 0, 10_000);
    assert!(matches!(b, SessionAction::Ignore));
    assert_eq!(r.snapshot()[1].last_activity, 10_000);
    assert!(matches!(handle_frame(&mut r, 55, IncomingFrame::Other, false, 0, 20_000), SessionAction::Ignore));
    assert_eq!(r.snapshot()[1].last_activity, 10_000);
    assert!(matches!(handle_frame(&mut r, 55, IncomingFrame::Failed, false, 0, 0), SessionAction::Close));
    assert!(matches!(handle_frame(&mut r, 55, IncomingFrame::Close, false, 0, 0), SessionAction::Close));
    close_session(&mut r, 55);
    let s = r.snapshot();
    assert_eq!(s.len(), 1);
    assert_eq!(s[0].id, 1);
}

#[test]
fn session_now_variants() {
    let mut r = ConnectionRegistry::new();
    let (id, welcome) = open_session_now(&mut r, "peer");
    assert!(matches!(welcome, ZedVisionMessage::ConnectionAccepted { ref payload } if payload.connection_id == id));
    let a = handle_frame_now(&mut r, id, IncomingFrame::Text(Some(ZedVisionMessage::Ping)), false);
    assert!(matches!(a, SessionAction::Reply(ZedVisionMessage::Pong)));
    close_session(&mut r, id);
    assert!(r.is_empty());
}

#[test]
fn service_manager_starts_servers_once() {
    let mut m = ServiceManager::new_with_shared_connections(config_for_host("h"));
    assert!(!m.is_running());
    assert!(!m.workspace_available());
    let tasks = m.start();
    assert!(m.is_running());
    assert_eq!(tasks.len(), 2);
    assert!(matches!(tasks[0], ServerTask::HttpDiscovery { port: 8766 }));
    assert!(matches!(tasks[1], ServerTask::WebSocket { port: 8765 }));
    assert!(m.start().is_empty());
    m.set_workspace();
    assert!(m.workspace_available());
    assert_eq!(m.config().service_name, "Zed-h");
}

#[test]
fn button_render_view() {
    let b = ZedVisionStatusButton::new(true);
    let v = b.render_view();
    assert_eq!(v.id, "zed-vision-status-button");
    assert_eq!((v.icon, v.icon_size, v.icon_tone), (Icon::Server, IconSize::Small, Tone::Success));
    assert_eq!(v.tooltip, "Vision Pro Sync (Running)");
    assert_eq!((v.tooltip_action, v.click_action), (PanelAction::ToggleFocus, PanelAction::ToggleFocus));
    let off = ZedVisionStatusButton::new(false).render_view();
    assert_eq!((off.icon_tone, off.tooltip.as_str()), (Tone::Muted, "Vision Pro Sync"));
}

#[test]
fn workspace_reaches_network_services() {
    let mut s = ZedVisionSync::new();
    s.set_workspace();
    let e = s.start_service();
    assert!(matches!(e[1], ServiceEffect::StartNetworkServices { workspace_available: true }));
    let (_, launched) = launch(&config_for_host("w"));
    assert!(matches!(launched[1], ServiceEffect::StartNetworkServices { workspace_available: true }));
}

#[test]
fn new_connection_id_is_version_four() {
    let mut r = ConnectionRegistry::new();
    let (id, _) = open_session_now(&mut r, "peer");
    assert_eq!((id >> 76) & 0xf, 4);
    assert_eq!((id >> 62) & 0x3, 2);
}

#[test]
fn second_start_starts_nothing() {
    let mut config = config_for_host("h");
    config.port = 65534;
    let mut m = ServiceManager::new_with_shared_connections(config);
    assert_eq!(m.start().len(), 2);
    assert!(m.start().is_empty());
}
