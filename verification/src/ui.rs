use vstd::prelude::*;
use vstd::string::*;

use crate::config::ZedVisionConfig;
use crate::connection::{elapsed_secs, is_timed_out_spec, Connection};
use crate::network::NetworkInfo;
use crate::service::{observed_after, observed_running, ServiceEffect, ServiceEvent};
use crate::text::{decimal, decimal_string};

verus! {

/// The sides of the workspace where a panel can dock.
#[derive(Debug, Clone)]
pub enum DockPosition {
    Left,
    Bottom,
    Right,
}

/// The icons the panel and the button draw.
#[derive(Debug, Clone, Copy, PartialEq, Eq, Structural)]
pub enum Icon {
    Check,
    Close,
    Server,
    Person,
}

/// The theme colours the panel and the button draw in.
#[derive(Debug, Clone, Copy, PartialEq, Eq, Structural)]
pub enum Tone {
    Success,
    Muted,
    Accent,
    Info,
    Error,
}

/// Icon sizes.
#[derive(Debug, Clone, Copy, PartialEq, Eq, Structural)]
pub enum IconSize {
    XSmall,
    Small,
    Medium,
}

/// The actions the sync service's controls dispatch.
#[derive(Debug, Clone, Copy, PartialEq, Eq, Structural)]
pub enum PanelAction {
    /// Focus or hide the sync panel.
    ToggleFocus,
}

/// The panel of the sync service: whether the service runs, as its events
/// told, and the local network it serves.
pub struct VisionSyncPanel {
    is_service_running: bool,
    network_info: NetworkInfo,
}

/// One connected device as the panel lists it: a person icon, the name,
/// and the time since its last activity, in error colours once it timed
/// out.
#[derive(Debug, Clone)]
pub struct ConnectionRow {
    pub icon: Icon,
    pub icon_tone: Tone,
    pub device_name: String,
    pub timed_out: bool,
    pub activity_label: String,
    pub label_tone: Tone,
}

/// Everything the panel shows.
#[derive(Debug, Clone)]
pub struct PanelView {
    pub toggle_label: String,
    pub running: bool,
    pub status_icon: Icon,
    pub status_tone: Tone,
    pub status_label: String,
    pub port_icon: Icon,
    pub port_tone: Tone,
    pub port_label: Option<String>,
    pub network_icon: Icon,
    pub network_tone: Tone,
    pub local_ip: String,
    pub network_segment: String,
    pub interface_name: String,
    pub devices_label: String,
    pub rows: Vec<ConnectionRow>,
    pub show_waiting: bool,
}

/// Everything the status bar button shows.
#[derive(Debug, Clone)]
pub struct ButtonView {
    pub id: String,
    pub icon: Icon,
    pub icon_size: IconSize,
    pub icon_tone: Tone,
    pub tooltip: String,
    pub tooltip_action: PanelAction,
    pub click_action: PanelAction,
}

/// `row` lists connection `c` as seen at `now`.
pub open spec fn is_row_of(row: ConnectionRow, c: Connection, now: i128) -> bool {
    let timed_out = is_timed_out_spec(c.last_activity, now);
    &&& row.icon == Icon::Person
    &&& row.icon_tone == (if timed_out {
        Tone::Error
    } else {
        Tone::Success
    })
    &&& row.device_name@ == c.device_name@
    &&& row.timed_out == timed_out
    &&& row.activity_label@ == "Last activity: "@ + decimal(elapsed_secs(c.last_activity, now))
        + "s ago"@
    &&& row.label_tone == (if timed_out {
        Tone::Error
    } else {
        Tone::Muted
    })
}

/// Whether the panel fits a dock on `position`: only the side docks do.
pub open spec fn is_valid_position(position: DockPosition) -> bool {
    position is Left || position is Right
}

fn connection_row(c: &Connection, now: i128) -> (row: ConnectionRow)
    ensures
        is_row_of(row, *c, now),
{
    let timed_out = c.is_timed_out_at(now);
    let mut label = String::from_str("Last activity: ");
    label.append(decimal_string(c.idle_secs_at(now)).as_str());
    label.append("s ago");
    ConnectionRow {
        icon: Icon::Person,
        icon_tone: if timed_out {
            Tone::Error
        } else {
            Tone::Success
        },
        device_name: c.device_name.clone(),
        timed_out,
        activity_label: label,
        label_tone: if timed_out {
            Tone::Error
        } else {
            Tone::Muted
        },
    }
}

impl VisionSyncPanel {
    /// Whether the panel shows the service as running.
    pub closed spec fn shows_running(&self) -> bool {
        self.is_service_running
    }

    /// A panel for a service whose running state is `service_running`.
    pub fn new(service_running: bool, network_info: NetworkInfo) -> (p: VisionSyncPanel)
        ensures
            p.shows_running() == service_running,
            p.network_info() == network_info,
    {
        VisionSyncPanel { is_service_running: service_running, network_info }
    }

    /// The network information the panel shows.
    pub closed spec fn network_info(&self) -> NetworkInfo {
        self.network_info
    }

    /// Takes in an event of the service; every event asks for a redraw, and
    /// a status event sets the running state shown.
    pub fn on_service_event(&mut self, event: &ServiceEvent) -> (redraw: bool)
        ensures
            redraw,
            final(self).network_info() == old(self).network_info(),
            final(self).shows_running() == (match *event {
                ServiceEvent::StatusChanged { running } => running,
                _ => old(self).shows_running(),
            }),
    {
        match event {
            ServiceEvent::StatusChanged { running } => {
                self.is_service_running = *running;
            },
            _ => {},
        }
        true
    }

    /// Takes in, in order, the events among `effects`.
    pub fn observe(&mut self, effects: &Vec<ServiceEffect>)
        ensures
            final(self).shows_running() == observed_running(old(self).shows_running(), effects@),
            final(self).network_info() == old(self).network_info(),
    {
        self.is_service_running = observed_after(self.is_service_running, effects);
    }

    /// The toggle's caption: "Stop" while the service runs, "Start" otherwise.
    pub fn toggle_label(&self) -> (s: String)
        ensures
            s@ == (if self.shows_running() {
                "Stop"@
            } else {
                "Start"@
            }),
    {
        if self.is_service_running {
            String::from_str("Stop")
        } else {
            String::from_str("Start")
        }
    }

    /// Whether the panel may dock at `position`.
    pub fn position_is_valid(&self, position: DockPosition) -> (b: bool)
        ensures
            b == is_valid_position(position),
    {
        match position {
            DockPosition::Left => true,
            DockPosition::Right => true,
            DockPosition::Bottom => false,
        }
    }

    /// Where the panel docks first.
    pub fn position(&self) -> (p: DockPosition)
        ensures
            p is Right,
    {
        DockPosition::Right
    }

    /// What the panel shows at `now` for a service running with `config`
    /// and holding `connections`: the toggle; the status with a check in
    /// success colour while running and a cross in muted colour otherwise;
    /// the port, under a server icon in accent colour, while running; the
    /// network under a server icon in info colour; and the devices.
    pub fn render_view(
        &self,
        config: &ZedVisionConfig,
        connections: &Vec<Connection>,
        now: i128,
    ) -> (v: PanelView)
        ensures
            v.running == self.shows_running(),
            v.toggle_label@ == (if self.shows_running() {
                "Stop"@
            } else {
                "Start"@
            }),
            v.status_icon == (if self.shows_running() {
                Icon::Check
            } else {
                Icon::Close
            }),
            v.status_tone == (if self.shows_running() {
                Tone::Success
            } else {
                Tone::Muted
            }),
            v.status_label@ == (if self.shows_running() {
                "Service Running - "@ + config.service_name@
            } else {
                "Service Stopped"@
            }),
            v.port_icon == Icon::Server,
            v.port_tone == Tone::Accent,
            self.shows_running() ==> (v.port_label matches Some(l) && l@ == "Port: "@ + decimal(
                config.port as nat,
            )),
            !self.shows_running() ==> v.port_label is None,
            v.network_icon == Icon::Server,
            v.network_tone == Tone::Info,
            v.local_ip@ == self.network_info().local_ip@,
            v.network_segment@ == self.network_info().network_segment@,
            v.interface_name@ == self.network_info().interface_name@,
            v.devices_label@ == "Connected Devices ("@ + decimal(connections@.len()) + ")"@,
            v.rows@.len() == connections@.len(),
            forall|i: int|
                0 <= i < connections@.len() ==> is_row_of(
                    #[trigger] v.rows@[i],
                    connections@[i],
                    now,
                ),
            v.show_waiting == (connections@.len() == 0 && self.shows_running()),
    {
        let running = self.is_service_running;
        let status_label = if running {
            let mut s = String::from_str("Service Running - ");
            s.append(config.service_name.as_str());
            s
        } else {
            String::from_str("Service Stopped")
        };
        let port_label = if running {
            let mut s = String::from_str("Port: ");
            s.append(decimal_string(config.port as u128).as_str());
            Some(s)
        } else {
            None
        };
        let n = connections.len();
        let mut devices_label = String::from_str("Connected Devices (");
        devices_label.append(decimal_string(n as u128).as_str());
        devices_label.append(")");
        let mut rows: Vec<ConnectionRow> = Vec::new();
        let mut i: usize = 0;
        while i < n
            invariant
                n == connections@.len(),
                i <= n,
                rows@.len() == i,
                forall|j: int| 0 <= j < i ==> is_row_of(#[trigger] rows@[j], connections@[j], now),
            decreases n - i,
        {
            rows.push(connection_row(&connections[i], now));
            i = i + 1;
        }
        PanelView {
            toggle_label: self.toggle_label(),
            running,
            status_icon: if running {
                Icon::Check
            } else {
                Icon::Close
            },
            status_tone: if running {
                Tone::Success
            } else {
                Tone::Muted
            },
            status_label,
            port_icon: Icon::Server,
            port_tone: Tone::Accent,
            port_label,
            network_icon: Icon::Server,
            network_tone: Tone::Info,
            local_ip: self.network_info.local_ip.clone(),
            network_segment: self.network_info.network_segment.clone(),
            interface_name: self.network_info.interface_name.clone(),
            devices_label,
            rows,
            show_waiting: n == 0 && running,
        }
    }
}

/// The status bar button of the sync service.
pub struct ZedVisionStatusButton {
    is_service_running: bool,
}

impl ZedVisionStatusButton {
    /// Whether the button shows the service as running.
    pub closed spec fn shows_running(&self) -> bool {
        self.is_service_running
    }

    /// A button for a service whose running state is `service_running`.
    pub fn new(service_running: bool) -> (b: ZedVisionStatusButton)
        ensures
            b.shows_running() == service_running,
    {
        ZedVisionStatusButton { is_service_running: service_running }
    }

    /// Takes in an event of the service: only a status event changes the
    /// button, and only it asks for a redraw.
    pub fn on_service_event(&mut self, event: &ServiceEvent) -> (redraw: bool)
        ensures
            redraw == (event is StatusChanged),
            final(self).shows_running() == (match *event {
                ServiceEvent::StatusChanged { running } => running,
                _ => old(self).shows_running(),
            }),
    {
        match event {
            ServiceEvent::StatusChanged { running } => {
                self.is_service_running = *running;
                true
            },
            _ => false,
        }
    }

    /// Whether the icon is drawn in the success colour (the service runs)
    /// rather than the muted one.
    pub fn is_highlighted(&self) -> (b: bool)
        ensures
            b == self.shows_running(),
    {
        self.is_service_running
    }

    /// The tooltip: "Vision Pro Sync", with " (Running)" while the service
    /// runs.
    pub fn tooltip(&self) -> (s: String)
        ensures
            s@ == (if self.shows_running() {
                "Vision Pro Sync (Running)"@
            } else {
                "Vision Pro Sync"@
            }),
    {
        if self.is_service_running {
            String::from_str("Vision Pro Sync (Running)")
        } else {
            String::from_str("Vision Pro Sync")
        }
    }

    /// What the button shows: a small server icon, in success colour while
    /// the service runs and muted otherwise, with the tooltip of the panel
    /// toggle; a click toggles the panel.
    pub fn render_view(&self) -> (v: ButtonView)
        ensures
            v.id@ == "zed-vision-status-button"@,
            v.icon == Icon::Server,
            v.icon_size == IconSize::Small,
            v.icon_tone == (if self.shows_running() {
                Tone::Success
            } else {
                Tone::Muted
            }),
            v.tooltip@ == (if self.shows_running() {
                "Vision Pro Sync (Running)"@
            } else {
                "Vision Pro Sync"@
            }),
            v.tooltip_action == PanelAction::ToggleFocus,
            v.click_action == PanelAction::ToggleFocus,
    {
        ButtonView {
            id: String::from_str("zed-vision-status-button"),
            icon: Icon::Server,
            icon_size: IconSize::Small,
            icon_tone: if self.is_highlighted() {
                Tone::Success
            } else {
                Tone::Muted
            },
            tooltip: self.tooltip(),
            tooltip_action: PanelAction::ToggleFocus,
            click_action: PanelAction::ToggleFocus,
        }
    }

    /// Takes in, in order, the events among `effects`.
    pub fn observe(&mut self, effects: &Vec<ServiceEffect>)
        ensures
            final(self).shows_running() == observed_running(old(self).shows_running(), effects@),
    {
        self.is_service_running = observed_after(self.is_service_running, effects);
    }
}

} // verus!
