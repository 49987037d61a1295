//! Operating-mode configuration: a process runs exactly one of the three
//! topologies, and each side of the system accepts only two of them.

use vstd::prelude::*;

verus! {

/// Port used by every role when the configuration names none.
pub const DEFAULT_PORT: u16 = 6543;

/// Interval in seconds used by the default Push and Poll configurations.
pub const DEFAULT_INTERVAL_SECONDS: u32 = 10;

/// Configuration file contents: the single operating mode of the process.
pub struct Config {
    pub mode: Mode,
}

/// The three mutually exclusive operating topologies.
pub enum Mode {
    /// Push: the agent dials out to a collector at some interval.
    Push(CattlePush),
    /// Pull: accept inbound connections from collectors.
    Pull(Pull),
    /// Poll: the collector dials each configured agent in turn.
    Poll(HerderPolls),
}

/// Parameters of Push mode: where the agent dials, and how often it reports.
pub struct CattlePush {
    /// Server IP or hostname.
    pub server: String,

    /// Server port.
    pub port: u16,

    /// Interval in seconds for sending data.
    pub interval_seconds: u32,
}

impl Default for CattlePush {
    fn default() -> (r: Self)
        ensures
            r.server@ == "localhost"@,
            r.port == DEFAULT_PORT,
            r.interval_seconds == DEFAULT_INTERVAL_SECONDS,
    {
        CattlePush {
            server: String::from_str("localhost"),
            port: DEFAULT_PORT,
            interval_seconds: DEFAULT_INTERVAL_SECONDS,
        }
    }
}

/// Parameters of Pull mode: the port to listen on for remote connections.
pub struct Pull {
    /// Port to listen on for remote connections.
    pub listen: u16,
}

impl Default for Pull {
    fn default() -> (r: Self)
        ensures
            r.listen == DEFAULT_PORT,
    {
        Pull { listen: DEFAULT_PORT }
    }
}

/// Parameters of Poll mode: the agents to poll, and how often.
pub struct HerderPolls {
    /// Agents to be polled, if they are in Pull mode.
    pub cattle: Vec<String>,

    /// Interval in seconds for polling for data.
    pub interval_seconds: u32,
}

impl Default for HerderPolls {
    fn default() -> (r: Self)
        ensures
            r.cattle@.len() == 1,
            r.cattle@[0]@ == "localhost"@,
            r.interval_seconds == DEFAULT_INTERVAL_SECONDS,
    {
        let mut cattle: Vec<String> = Vec::new();
        cattle.push(String::from_str("localhost"));
        HerderPolls { cattle, interval_seconds: DEFAULT_INTERVAL_SECONDS }
    }
}

/// Configuration of the agent process: its herd mode.
pub struct CattleConfig {
    /// Herd config: push or pull?
    pub herd_config: Config,
}

/// Configuration of the collector process: its herd mode and web port.
pub struct HerderConfig {
    /// Herd config: pull or poll?
    pub herd_config: Config,

    /// Web interface port for displaying information.
    pub web_port: u16,
}

/// An agent may run Push or Pull; Poll is the collector's role alone.
/// Checked as a fatal validation at startup, not as a protocol rule.
pub fn cattle_mode_allowed(mode: &Mode) -> (r: bool)
    ensures
        r <==> !(mode is Poll),
{
    !(matches!(mode, Mode::Poll(_)))
}

/// The collector may run Pull or Poll; Push is the agent's role alone.
/// Checked as a fatal validation at startup, not as a protocol rule.
pub fn herder_mode_allowed(mode: &Mode) -> (r: bool)
    ensures
        r <==> !(mode is Push),
{
    !(matches!(mode, Mode::Push(_)))
}

} // verus!
