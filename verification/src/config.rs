//! Daemon configuration rules.

use vstd::prelude::*;

use crate::text::{begins_with, starts_with};

pub mod laws;

verus! {

/// An IP address as a number.
#[derive(Debug, Clone, Copy, PartialEq, Eq, Structural)]
pub enum IpAddr {
    V4(u32),
    V6(u128),
}

impl IpAddr {
    /// The address of this machine itself: 127.0.0.0/8 or ::1.
    pub open spec fn loopback(self) -> bool {
        match self {
            IpAddr::V4(a) => a / 0x100_0000 == 127,
            IpAddr::V6(a) => a == 1,
        }
    }

    /// Addresses of a private network: 10.0.0.0/8, 172.16.0.0/12,
    /// 192.168.0.0/16, or the unique local fc00::/7.
    pub open spec fn private(self) -> bool {
        match self {
            IpAddr::V4(a) => a / 0x100_0000 == 10 || a / 0x10_0000 == 0xAC1 || a / 0x1_0000
                == 0xC0A8,
            IpAddr::V6(a) => a / 0x200_0000_0000_0000_0000_0000_0000_0000 == 0x7E,
        }
    }

    /// Addresses that are good on one link only: 169.254.0.0/16 or fe80::/10.
    pub open spec fn link_local(self) -> bool {
        match self {
            IpAddr::V4(a) => a / 0x1_0000 == 0xA9FE,
            IpAddr::V6(a) => a / 0x40_0000_0000_0000_0000_0000_0000_0000 == 0x3FA,
        }
    }

    /// The address that stands for every interface.
    pub open spec fn unspecified(self) -> bool {
        match self {
            IpAddr::V4(a) => a == 0,
            IpAddr::V6(a) => a == 0,
        }
    }

    fn is_local(self) -> (r: bool)
        ensures
            r == (self.loopback() || self.private() || self.link_local()),
    {
        match self {
            IpAddr::V4(a) => a / 0x100_0000 == 127 || a / 0x100_0000 == 10 || a / 0x10_0000 == 0xAC1
                || a / 0x1_0000 == 0xC0A8 || a / 0x1_0000 == 0xA9FE,
            IpAddr::V6(a) => a == 1 || a / 0x200_0000_0000_0000_0000_0000_0000_0000 == 0x7E || a
                / 0x40_0000_0000_0000_0000_0000_0000_0000 == 0x3FA,
        }
    }

    fn is_unspecified(self) -> (r: bool)
        ensures
            r == self.unspecified(),
    {
        match self {
            IpAddr::V4(a) => a == 0,
            IpAddr::V6(a) => a == 0,
        }
    }
}

/// What the daemon is told to do. Two transports, either or both: a LAN
/// WebSocket (bind/allow) and signaled WebRTC (signal/secret).
#[derive(Debug, Clone)]
pub struct Args {
    /// LAN transport: interface address to bind.
    pub bind: Option<IpAddr>,
    /// LAN transport: TCP port to listen on.
    pub port: u16,
    /// LAN transport: controller addresses allowed to connect.
    pub allow: Vec<IpAddr>,
    /// WebRTC transport: signal server, as host:port or a full ws:// URL.
    pub signal: Option<String>,
    /// WebRTC transport: pre-shared secret for the signal server.
    pub secret: Option<String>,
    /// Device id announced to the signal server.
    pub device_id: Option<String>,
    /// STUN servers.
    pub stun: Vec<String>,
}

/// What is wrong with the arguments, the first thing first.
pub open spec fn args_problem(a: Args) -> Option<Seq<char>> {
    if a.bind is None && a.signal is None {
        Some(
            "nothing to do: pass --bind/--allow (LAN) and/or --signal/--secret (WebRTC)"@,
        )
    } else if a.bind is Some && a.allow@.len() == 0 {
        Some("--bind requires at least one --allow"@)
    } else if a.bind is None && a.allow@.len() > 0 {
        Some("--allow requires --bind"@)
    } else if (a.signal is Some) != (a.secret is Some) {
        Some("--signal and --secret go together"@)
    } else {
        None
    }
}

/// The signal server's URL: as given, or made from `host:port`.
pub open spec fn url_for(signal: Seq<char>) -> Seq<char> {
    if begins_with(signal, "ws://"@) || begins_with(signal, "wss://"@) {
        signal
    } else {
        "ws://"@ + signal + "/ws"@
    }
}

impl Args {
    /// At least one transport, and each transport's flags complete.
    pub fn validate(&self) -> (r: Result<(), String>)
        ensures
            match r {
                Ok(()) => args_problem(*self) is None,
                Err(e) => args_problem(*self) == Some(e@),
            },
    {
        if self.bind.is_none() && self.signal.is_none() {
            return Err(
                "nothing to do: pass --bind/--allow (LAN) and/or --signal/--secret (WebRTC)".to_owned(),
            );
        }
        if self.bind.is_some() && self.allow.len() == 0 {
            return Err("--bind requires at least one --allow".to_owned());
        }
        if self.bind.is_none() && self.allow.len() != 0 {
            return Err("--allow requires --bind".to_owned());
        }
        if self.signal.is_some() != self.secret.is_some() {
            return Err("--signal and --secret go together".to_owned());
        }
        Ok(())
    }

    /// Accept "host:port" shorthand or a full ws(s):// URL.
    pub fn signal_url(&self) -> (r: Option<String>)
        ensures
            match r {
                Some(url) => self.signal is Some && url@ == url_for(self.signal->0@),
                None => self.signal is None,
            },
    {
        match &self.signal {
            None => None,
            Some(s) => if starts_with(s.as_str(), "ws://") || starts_with(s.as_str(), "wss://") {
                Some(s.clone())
            } else {
                let mut url: String = "ws://".to_owned();
                url.append(s.as_str());
                url.append("/ws");
                Some(url)
            },
        }
    }
}

/// Why an address may not be listened on, if so; `shown` is the address in
/// words.
pub open spec fn bind_problem(ip: IpAddr, shown: Seq<char>) -> Option<Seq<char>> {
    if ip.unspecified() {
        Some(
            "refusing to bind "@ + shown
                + ": binding all interfaces would expose the daemon beyond the LAN"@,
        )
    } else if ip.loopback() || ip.private() || ip.link_local() {
        None
    } else {
        Some("refusing to bind "@ + shown + ": not a loopback or private LAN address"@)
    }
}

/// The daemon is a remote-control backdoor by design; refuse to listen on
/// anything that could be a public interface. Loopback is allowed for
/// same-machine development and tests. `shown` is the address in words.
pub fn validate_bind_addr(ip: IpAddr, shown: &str) -> (r: Result<(), String>)
    ensures
        match r {
            Ok(()) => bind_problem(ip, shown@) is None,
            Err(e) => bind_problem(ip, shown@) == Some(e@),
        },
{
    if ip.is_unspecified() {
        let mut e: String = "refusing to bind ".to_owned();
        e.append(shown);
        e.append(": binding all interfaces would expose the daemon beyond the LAN");
        return Err(e);
    }
    if ip.is_local() {
        Ok(())
    } else {
        let mut e: String = "refusing to bind ".to_owned();
        e.append(shown);
        e.append(": not a loopback or private LAN address");
        Err(e)
    }
}

/// The peers on an allowlist.
pub open spec fn on_allowlist(allow: Seq<IpAddr>, peer: IpAddr) -> bool {
    allow.contains(peer)
}

/// Whether a peer is on the allowlist: an exact match.
pub fn ip_allowed(allow: &[IpAddr], peer: IpAddr) -> (r: bool)
    ensures
        r == on_allowlist(allow@, peer),
        r == allow@.contains(peer),
{
    let mut i: usize = 0;
    while i < allow.len()
        invariant
            i <= allow@.len(),
            forall|j: int| 0 <= j < i ==> allow@[j] != peer,
        decreases allow@.len() - i,
    {
        if allow[i] == peer {
            return true;
        }
        i += 1;
    }
    false
}

/// No address outside loopback, the private networks and the local link is ever
/// listened on, and never all interfaces.
pub proof fn law_only_local_addresses_are_bound(ip: IpAddr, shown: Seq<char>)
    requires
        bind_problem(ip, shown) is None,
    ensures
        !ip.unspecified(),
        ip.loopback() || ip.private() || ip.link_local(),
{
}

} // verus!
