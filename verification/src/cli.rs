//! The command line: its commands, and what `connect` sets up.

use vstd::prelude::*;
use crate::config::Config;

verus! {

/// A parsed command line.
pub struct Cli {
    pub command: Command,
}

/// The runtime's commands.
pub enum Command {
    /// Connect and start receiving messages.
    Connect {
        id: String,
        key: String,
        api: String,
        platform: Option<String>,
        webhook: Option<String>,
        interval: u64,
        no_sse: bool,
        health_port: u16,
    },
    /// Show connection status.
    Status,
    /// Remove the configuration.
    Disconnect,
    /// Send a message.
    Send { to: String, message: String },
    /// Check the inbox.
    Inbox,
    /// List available providers.
    Providers,
    /// Install as a system service.
    InstallService { id: Option<String>, key: Option<String> },
}

/// What `connect` runs with.
pub struct ConnectPlan {
    /// The configuration to save and run with.
    pub config: Config,
    /// Receive from the event stream (with polling as fallback) rather than
    /// by polling alone.
    pub use_sse: bool,
    /// The port of the local health endpoint, when it is enabled.
    pub health_port: Option<u16>,
    /// Seconds between polls.
    pub interval_secs: u64,
}

/// The plan for `connect` with the given options, `platform` being the
/// platform asked for or else the one detected: the event stream is used
/// unless `no_sse`, and the health endpoint runs unless its port is 0.
pub fn plan_connect(
    id: String,
    key: String,
    api: String,
    platform: String,
    webhook: Option<String>,
    interval: u64,
    no_sse: bool,
    health_port: u16,
) -> (p: ConnectPlan)
    ensures
        p.config.agent_id@ == id@,
        p.config.api_key@ == key@,
        p.config.api_base@ == api@,
        p.config.platform@ == platform@,
        p.config.webhook_url == webhook,
        p.config.file_output_dir is None,
        p.use_sse == !no_sse,
        p.health_port == (if health_port > 0 { Some(health_port) } else { None::<u16> }),
        p.interval_secs == interval,
{
    let config = Config::for_connect(id, key, api, platform, webhook);
    let health_port = if health_port > 0 { Some(health_port) } else { None };
    ConnectPlan { config, use_sse: !no_sse, health_port, interval_secs: interval }
}

} // verus!
