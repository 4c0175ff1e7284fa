use vstd::prelude::*;
use vstd::string::*;

use crate::config::ZedVisionConfig;
use crate::connection::{millis_from_nanos, millis_of, unix_nanos_now, Connection};
use crate::protocol::{
    connection_accepted, is_connection_accepted, is_response, is_v4_uuid, new_uuid, respond,
    ZedVisionMessage,
};
use crate::registry::{contains_id, has_other_id, is_touched, ConnectionRegistry};
use crate::text::{decimal, decimal_string};

verus! {

/// What the discovery endpoint answers.
#[derive(Debug, Clone)]
pub struct DiscoveryInfo {
    pub name: String,
    pub websocket_url: String,
    pub version: String,
    pub platform: String,
    pub app: String,
}

/// The answer of the discovery endpoint for service `service_name` whose
/// WebSocket listens on `port` at the local address found, if any; where no
/// address is known, "0.0.0.0" stands for it.
pub fn discovery_info(service_name: &str, local_ip: Option<String>, port: u16) -> (d:
    DiscoveryInfo)
    ensures
        d.name@ == service_name@,
        d.websocket_url@ == "ws://"@ + (match local_ip {
            Some(ip) => ip@,
            None => "0.0.0.0"@,
        }) + ":"@ + decimal(port as nat),
        d.version@ == "1.0"@,
        d.platform@ == "macOS"@,
        d.app@ == "Zed"@,
{
    let ip = match local_ip {
        Some(ip) => ip,
        None => String::from_str("0.0.0.0"),
    };
    let mut url = String::from_str("ws://");
    url.append(ip.as_str());
    url.append(":");
    url.append(decimal_string(port as u128).as_str());
    DiscoveryInfo {
        name: String::from_str(service_name),
        websocket_url: url,
        version: String::from_str("1.0"),
        platform: String::from_str("macOS"),
        app: String::from_str("Zed"),
    }
}

/// The HTTP discovery service listens on the port after the WebSocket's.
pub fn discovery_port(port: u16) -> (p: u16)
    requires
        port < u16::MAX,
    ensures
        p == port + 1,
{
    port + 1
}

/// A server that the service manager asks its host to run.
#[derive(Debug, Clone)]
pub enum ServerTask {
    /// The HTTP discovery endpoint on this port.
    HttpDiscovery { port: u16 },
    /// The WebSocket server on this port.
    WebSocket { port: u16 },
}

/// The network side of the service: which configuration it serves, whether
/// its servers run, and whether a workspace is there for AI replies.
pub struct ServiceManager {
    config: ZedVisionConfig,
    is_running: bool,
    workspace_available: bool,
}

impl ServiceManager {
    /// The configuration served.
    pub closed spec fn spec_config(&self) -> ZedVisionConfig {
        self.config
    }

    /// Whether the servers run.
    pub closed spec fn spec_is_running(&self) -> bool {
        self.is_running
    }

    /// Whether a workspace is set.
    pub closed spec fn spec_workspace_available(&self) -> bool {
        self.workspace_available
    }

    /// A manager for `config` whose servers do not run yet and which has no
    /// workspace.
    pub fn new_with_shared_connections(config: ZedVisionConfig) -> (m: ServiceManager)
        ensures
            m.spec_config() == config,
            !m.spec_is_running(),
            !m.spec_workspace_available(),
    {
        ServiceManager { config, is_running: false, workspace_available: false }
    }

    /// Records that a workspace is available, which enables AI replies.
    pub fn set_workspace(&mut self)
        ensures
            final(self).spec_config() == old(self).spec_config(),
            final(self).spec_is_running() == old(self).spec_is_running(),
            final(self).spec_workspace_available(),
    {
        self.workspace_available = true;
    }

    /// Whether a workspace is available.
    pub fn workspace_available(&self) -> (b: bool)
        ensures
            b == self.spec_workspace_available(),
    {
        self.workspace_available
    }

    /// Whether the servers run.
    pub fn is_running(&self) -> (b: bool)
        ensures
            b == self.spec_is_running(),
    {
        self.is_running
    }

    /// The configuration served.
    pub fn config(&self) -> (c: &ZedVisionConfig)
        ensures
            *c == self.spec_config(),
    {
        &self.config
    }

    /// Starts the servers unless they run: discovery on the port after the
    /// WebSocket's, then the WebSocket server. A running manager asks for
    /// nothing, whatever its port.
    pub fn start(&mut self) -> (tasks: Vec<ServerTask>)
        requires
            old(self).spec_is_running() || old(self).spec_config().port < u16::MAX,
        ensures
            final(self).spec_config() == old(self).spec_config(),
            final(self).spec_workspace_available() == old(self).spec_workspace_available(),
            final(self).spec_is_running(),
            old(self).spec_is_running() ==> tasks@.len() == 0,
            !old(self).spec_is_running() ==> tasks@ == seq![
                ServerTask::HttpDiscovery { port: (old(self).spec_config().port + 1) as u16 },
                ServerTask::WebSocket { port: old(self).spec_config().port },
            ],
    {
        if self.is_running {
            return Vec::new();
        }
        let port = self.config.port;
        let mut tasks: Vec<ServerTask> = Vec::new();
        tasks.push(ServerTask::HttpDiscovery { port: discovery_port(port) });
        tasks.push(ServerTask::WebSocket { port });
        self.is_running = true;
        proof {
            assert(tasks@ =~= seq![
                ServerTask::HttpDiscovery { port: (port + 1) as u16 },
                ServerTask::WebSocket { port },
            ]);
        }
        tasks
    }
}

/// A frame received on a WebSocket, with a text frame already read as a
/// protocol message where it is one.
#[derive(Debug)]
pub enum IncomingFrame {
    Text(Option<ZedVisionMessage>),
    Close,
    Failed,
    Other,
}

/// What the session does after a frame.
#[derive(Debug)]
pub enum SessionAction {
    Reply(ZedVisionMessage),
    Ignore,
    Close,
}

/// `r` is the action for `frame` on connection `connection_id`: a protocol
/// message is answered, text that is none is ignored, a close or an error
/// ends the session, and other frames are ignored.
pub open spec fn is_session_action(
    frame: IncomingFrame,
    connection_id: u128,
    workspace_available: bool,
    message_id: u128,
    now: u64,
    r: SessionAction,
) -> bool {
    match frame {
        IncomingFrame::Text(Some(m)) => r matches SessionAction::Reply(reply) && is_response(
            m,
            connection_id,
            workspace_available,
            message_id,
            now,
            reply,
        ),
        IncomingFrame::Text(None) => r is Ignore,
        IncomingFrame::Close => r is Close,
        IncomingFrame::Failed => r is Close,
        IncomingFrame::Other => r is Ignore,
    }
}

/// Registers the device that connected from `peer` at `now` (nanoseconds
/// since the Unix epoch) as connection
/// `connection_id`, and returns the welcome that accepts it.
pub fn open_session(registry: &mut ConnectionRegistry, connection_id: u128, peer: &str, now: i128) -> (welcome: ZedVisionMessage)
    ensures
        final(registry)@.len() == old(registry)@.len() + 1,
        final(registry)@.drop_last() == old(registry)@,
        final(registry)@.last().id == connection_id,
        final(registry)@.last().device_name@ == "Device-"@ + peer@,
        final(registry)@.last().connected_at == now,
        final(registry)@.last().last_activity == now,
        is_connection_accepted(welcome, connection_id),
{
    let connection = Connection::for_peer(connection_id, peer, now);
    registry.add(connection);
    proof {
        assert(final(registry)@.drop_last() =~= old(registry)@);
    }
    connection_accepted(connection_id)
}

/// Registers the device that connected from `peer` now, under a fresh
/// random id; returns the id and the welcome.
pub fn open_session_now(registry: &mut ConnectionRegistry, peer: &str) -> (r: (u128, ZedVisionMessage))
    ensures
        final(registry)@.len() == old(registry)@.len() + 1,
        final(registry)@.drop_last() == old(registry)@,
        final(registry)@.last().id == r.0,
        is_v4_uuid(r.0),
        final(registry)@.last().device_name@ == "Device-"@ + peer@,
        final(registry)@.last().connected_at == final(registry)@.last().last_activity,
        is_connection_accepted(r.1, r.0),
{
    let connection_id = new_uuid();
    let now = unix_nanos_now();
    let welcome = open_session(registry, connection_id, peer, now);
    (connection_id, welcome)
}

/// Handles one frame on connection `connection_id` at `now` (nanoseconds
/// from the Unix epoch): text counts as activity of the connection, and a
/// reply is stamped with `now` in whole milliseconds.
pub fn handle_frame(
    registry: &mut ConnectionRegistry,
    connection_id: u128,
    frame: IncomingFrame,
    workspace_available: bool,
    message_id: u128,
    now: i128,
) -> (r: SessionAction)
    ensures
        frame is Text ==> is_touched(old(registry)@, final(registry)@, connection_id, now),
        !(frame is Text) ==> final(registry)@ == old(registry)@,
        is_session_action(
            frame,
            connection_id,
            workspace_available,
            message_id,
            millis_of(now),
            r,
        ),
{
    match frame {
        IncomingFrame::Text(parsed) => {
            registry.touch(connection_id, now);
            match parsed {
                Some(m) => SessionAction::Reply(
                    respond(
                        m,
                        connection_id,
                        workspace_available,
                        message_id,
                        millis_from_nanos(now),
                    ),
                ),
                None => SessionAction::Ignore,
            }
        },
        IncomingFrame::Close => SessionAction::Close,
        IncomingFrame::Failed => SessionAction::Close,
        IncomingFrame::Other => SessionAction::Ignore,
    }
}

/// What handling `frame` at `now` (nanoseconds) with message id
/// `message_id` does: text touches the connection, and `r` is the action.
pub open spec fn is_frame_outcome(
    before: Seq<Connection>,
    after: Seq<Connection>,
    frame: IncomingFrame,
    connection_id: u128,
    workspace_available: bool,
    message_id: u128,
    now: i128,
    r: SessionAction,
) -> bool {
    &&& frame is Text ==> is_touched(before, after, connection_id, now)
    &&& !(frame is Text) ==> after == before
    &&& is_session_action(
        frame,
        connection_id,
        workspace_available,
        message_id,
        millis_of(now),
        r,
    )
}

/// Handles one frame with a fresh random message id at the current time.
pub fn handle_frame_now(
    registry: &mut ConnectionRegistry,
    connection_id: u128,
    frame: IncomingFrame,
    workspace_available: bool,
) -> (r: SessionAction)
    ensures
        exists|message_id: u128, now: i128|
            is_v4_uuid(message_id) && is_frame_outcome(
                old(registry)@,
                final(registry)@,
                frame,
                connection_id,
                workspace_available,
                message_id,
                now,
                r,
            ),
{
    let message_id = new_uuid();
    let now = unix_nanos_now();
    let ghost f = frame;
    let r = handle_frame(registry, connection_id, frame, workspace_available, message_id, now);
    assert(is_frame_outcome(
        old(registry)@,
        registry@,
        f,
        connection_id,
        workspace_available,
        message_id,
        now,
        r,
    ));
    r
}

/// Ends the session of connection `connection_id`: its record leaves the
/// registry, the others stay in order.
pub fn close_session(registry: &mut ConnectionRegistry, connection_id: u128)
    ensures
        final(registry)@ == old(registry)@.filter(has_other_id(connection_id)),
{
    registry.remove(connection_id);
}

/// A session under an id that no registered connection has leaves the
/// registry as it found it once it is closed.
pub proof fn lemma_session_restores_registry(
    before: Seq<Connection>,
    during: Seq<Connection>,
    connection_id: u128,
)
    requires
        !contains_id(before, connection_id),
        during.len() == before.len() + 1,
        during.drop_last() == before,
        during.last().id == connection_id,
    ensures
        during.filter(has_other_id(connection_id)) == before,
{
    assert(during =~= before.push(during.last()));
    crate::registry::lemma_add_then_remove(before, during.last());
}

/// Activity on a session's own connection leaves every other record as it
/// was, so the law above still applies when the session ends.
pub proof fn lemma_touch_keeps_session(
    before: Seq<Connection>,
    during: Seq<Connection>,
    after: Seq<Connection>,
    connection_id: u128,
    now: i128,
)
    requires
        !contains_id(before, connection_id),
        during.len() == before.len() + 1,
        during.drop_last() == before,
        during.last().id == connection_id,
        is_touched(during, after, connection_id, now),
    ensures
        after.len() == before.len() + 1,
        after.drop_last() == before,
        after.last().id == connection_id,
        after.last().last_activity == now,
{
    let last = during.len() - 1;
    assert(during[last].id == connection_id);
    assert(contains_id(during, connection_id));
    let i = choose|i: int|
        crate::registry::is_first_with_id(during, connection_id, i) && after == during.update(
            i,
            crate::registry::with_activity(during[i], now),
        );
    if i < last {
        assert(before[i] == during[i]);
        assert(contains_id(before, connection_id));
    }
    assert(i == last);
    assert(after.drop_last() =~= before);
}

} // verus!
