use vstd::prelude::*;

verus! {

/// The network endpoint the client connects to: a host name and a port,
/// configured before the bootstrap runs and read-only afterwards.
pub struct ConnectionAddr {
    pub host: String,
    pub port: u16,
}

impl ConnectionAddr {
    pub fn new(host: String, port: u16) -> (a: ConnectionAddr)
        ensures
            a.host@ == host@,
            a.port == port,
    {
        ConnectionAddr { host, port }
    }
}

impl Clone for ConnectionAddr {
    fn clone(&self) -> (r: Self)
        ensures
            r == *self,
    {
        ConnectionAddr { host: self.host.clone(), port: self.port }
    }
}

/// The client/transport pair of one connection attempt, recorded by the
/// endpoint it was created for. The pair starts out connecting; progress
/// is observed later, each tick, through the transport's own "connected"
/// report fed to the connection gate and the health samples.
pub struct Session {
    pub addr: ConnectionAddr,
}

/// Session factory: initiates a single connection attempt toward `addr`.
/// No retry happens here; an unreachable address simply yields a pair the
/// gate keeps observing as not connected. Installing the pair into shared
/// state is the caller's (the bootstrap's) responsibility.
pub fn new_session(addr: &ConnectionAddr) -> (s: Session)
    ensures
        s.addr == *addr,
{
    Session { addr: addr.clone() }
}

/// Roster mapping remote-player identifiers to local ones; created empty
/// at bootstrap time, one instance per active session. The gameplay-sync
/// systems that fill it are collaborators outside this core.
pub struct ClientLobby {
    pub players: Vec<(u64, u64)>,
}

impl ClientLobby {
    pub fn player_count(&self) -> (n: usize)
        ensures
            n == self.players@.len(),
    {
        self.players.len()
    }
}

impl Default for ClientLobby {
    /// A freshly emptied roster.
    fn default() -> (l: Self)
        ensures
            l.players@ == Seq::<(u64, u64)>::empty(),
    {
        ClientLobby { players: Vec::new() }
    }
}

/// The ambient brightness the bootstrap installs, in thousandths of the
/// renderer's unit: 1060 stands for a brightness of 1.060.
pub const AMBIENT_BRIGHTNESS_MILLI: u32 = 1060;

/// Ambient lighting configuration, held in integer thousandths so the
/// core can state exactly what the bootstrap installs; the rendering shell
/// converts to its own unit when it applies the value.
pub struct AmbientLightConfig {
    pub brightness_milli: u32,
}

impl AmbientLightConfig {
    /// The configuration the bootstrap installs: brightness fixed at
    /// 1.060, everything else left to the renderer's defaults.
    pub fn bootstrap_default() -> (c: AmbientLightConfig)
        ensures
            c.brightness_milli == AMBIENT_BRIGHTNESS_MILLI,
    {
        AmbientLightConfig { brightness_milli: AMBIENT_BRIGHTNESS_MILLI }
    }
}

} // verus!
