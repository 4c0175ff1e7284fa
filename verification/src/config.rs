use vstd::prelude::*;
use vstd::string::*;

verus! {

/// The port on which the WebSocket service listens; HTTP discovery uses the
/// next one.
pub const DEFAULT_PORT: u16 = 8765;

/// Settings of the sync service.
#[derive(Debug, Clone)]
pub struct ZedVisionConfig {
    pub service_name: String,
    pub port: u16,
    pub enabled: bool,
}

/// The machine's host name as `hostname::get` reports it, converted lossily
/// to UTF-8, or `None` where the lookup fails. The name comes from the
/// operating system, so nothing is stated of it.
#[verifier::external_body]
fn system_host_name() -> Option<String> {
    match hostname::get() {
        Ok(name) => Some(name.to_string_lossy().into_owned()),
        Err(_) => None,
    }
}

/// The configuration of a machine named `host_name`: the service is called
/// "Zed-" followed by the host name, listens on the default port and is
/// enabled.
pub fn config_for_host(host_name: &str) -> (c: ZedVisionConfig)
    ensures
        c.service_name@ == "Zed-"@ + host_name@,
        c.port == DEFAULT_PORT,
        c.enabled,
{
    let mut service_name = String::from_str("Zed-");
    service_name.append(host_name);
    ZedVisionConfig { service_name, port: DEFAULT_PORT, enabled: true }
}

impl Default for ZedVisionConfig {
    /// The configuration of this machine; where its host name cannot be
    /// read, the name part is empty.
    fn default() -> (c: Self)
        ensures
            exists|host: Seq<char>| c.service_name@ == "Zed-"@ + host,
            c.port == DEFAULT_PORT,
            c.enabled,
    {
        match system_host_name() {
            Some(host) => config_for_host(host.as_str()),
            None => config_for_host(""),
        }
    }
}

} // verus!
