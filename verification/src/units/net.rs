//! The network unit: its display toggle and the command its ping mode
//! spawns through the effects engine; the bandwidth smoothing and the
//! latency statistics are the event loop's.
use vstd::prelude::*;
use vstd::string::StringExecFns;

verus! {

/// The network unit's configuration.
#[derive(Debug)]
pub struct NetConfig {
    pub interface: String,
    pub ping_server: String,
    pub ping_window: usize,
}

impl Clone for NetConfig {
    /// The clone denotes the same configuration.
    fn clone(&self) -> (r: Self)
        ensures
            r.interface@ == self.interface@,
            r.ping_server@ == self.ping_server@,
            r.ping_window == self.ping_window,
    {
        NetConfig {
            interface: self.interface.clone(),
            ping_server: self.ping_server.clone(),
            ping_window: self.ping_window,
        }
    }
}

/// What the network unit shows: throughput, or ping latency.
#[derive(Debug, Clone, Copy, PartialEq, Eq, Structural)]
pub enum NetDisplayMode {
    Bandwidth,
    Ping,
}

/// The display after one click.
pub open spec fn spec_next_net_mode(m: NetDisplayMode) -> NetDisplayMode {
    match m {
        NetDisplayMode::Bandwidth => NetDisplayMode::Ping,
        NetDisplayMode::Ping => NetDisplayMode::Bandwidth,
    }
}

/// The ping command the effects engine keeps alive for this unit: flood
/// protection on, every probe reported, bound to the configured interface.
pub fn ping_command(interface: &str, server: &str) -> (r: Vec<String>)
    ensures
        r.deep_view().len() == 6,
        r.deep_view()[0] == "ping"@,
        r.deep_view()[1] == "-n"@,
        r.deep_view()[2] == "-O"@,
        r.deep_view()[3] == "-I"@,
        r.deep_view()[4] == interface@,
        r.deep_view()[5] == server@,
{
    let mut cmd: Vec<String> = Vec::new();
    cmd.push("ping".to_owned());
    cmd.push("-n".to_owned());
    cmd.push("-O".to_owned());
    cmd.push("-I".to_owned());
    let mut i = String::new();
    i.append(interface);
    cmd.push(i);
    let mut s = String::new();
    s.append(server);
    cmd.push(s);
    cmd
}

} // verus!
