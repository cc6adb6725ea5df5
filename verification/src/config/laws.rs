//! The configuration rules in the terms of their users: dotted addresses, prefixes and
//! flags.

use vstd::prelude::*;

use super::{args_problem, bind_problem, on_allowlist, url_for, Args, IpAddr};

verus! {

/// Of the IPv4 addresses the daemon listens on 127.x, 10.x, 172.16.x to 172.31.x,
/// 192.168.x and 169.254.x, and on no other.
pub proof fn law_v4_addresses(a: u8, b: u8, c: u8, d: u8, shown: Seq<char>)
    ensures
        ({
            let ip = IpAddr::V4((16777216 * a + 65536 * b + 256 * c + d) as u32);
            let ok = a == 127 || a == 10 || (a == 172 && 16 <= b <= 31) || (a == 192 && b == 168)
                || (a == 169 && b == 254);
            &&& bind_problem(ip, shown) is None <==> ok
            &&& a == 0 && b == 0 && c == 0 && d == 0 ==> bind_problem(ip, shown) == Some(
                "refusing to bind "@ + shown
                    + ": binding all interfaces would expose the daemon beyond the LAN"@,
            )
            &&& !ok && !(a == 0 && b == 0 && c == 0 && d == 0) ==> bind_problem(ip, shown) == Some(
                "refusing to bind "@ + shown + ": not a loopback or private LAN address"@,
            )
        }),
{
    let n = 16777216 * a + 65536 * b + 256 * c + d;
    assert(n / 16777216 == a);
    assert(n / 65536 == 256 * a + b);
    assert(n / 1048576 == 16 * a + b as int / 16);
}

/// Of the IPv6 addresses the daemon listens on ::1, on those that begin with fc00 to
/// fdff and on those that begin with fe80 to febf, and on no other.
pub proof fn law_v6_addresses(ip: u128, shown: Seq<char>)
    ensures
        ({
            let group = ip / 0x1_0000_0000_0000_0000_0000_0000_0000;
            let ok = ip == 1 || 0xfc00 <= group <= 0xfdff || 0xfe80 <= group <= 0xfebf;
            &&& bind_problem(IpAddr::V6(ip), shown) is None <==> ok
            &&& ip == 0 ==> bind_problem(IpAddr::V6(ip), shown) == Some(
                "refusing to bind "@ + shown
                    + ": binding all interfaces would expose the daemon beyond the LAN"@,
            )
            &&& !ok && ip != 0 ==> bind_problem(IpAddr::V6(ip), shown) == Some(
                "refusing to bind "@ + shown + ": not a loopback or private LAN address"@,
            )
        }),
{
}

/// The daemon starts exactly where it has a transport, the LAN transport has an
/// allowlist if and only if it has an address, and the signal server a secret if and
/// only if it has an address.
pub proof fn law_arguments_are_complete(a: Args)
    ensures
        args_problem(a) is None <==> {
            &&& a.bind is Some || a.signal is Some
            &&& a.bind is Some <==> a.allow@.len() > 0
            &&& a.signal is Some <==> a.secret is Some
        },
        a.bind is None && a.signal is None ==> args_problem(a) == Some(
            "nothing to do: pass --bind/--allow (LAN) and/or --signal/--secret (WebRTC)"@,
        ),
        a.bind is Some && a.allow@.len() == 0 ==> args_problem(a) == Some(
            "--bind requires at least one --allow"@,
        ),
        a.bind is None && a.signal is Some && a.allow@.len() > 0 ==> args_problem(a) == Some(
            "--allow requires --bind"@,
        ),
        args_problem(a) == Some("--signal and --secret go together"@) <== (a.bind is Some
            && a.allow@.len() > 0 && (a.signal is Some) != (a.secret is Some)),
        a.bind is None && a.signal is Some && a.allow@.len() == 0 && a.secret is None
            ==> args_problem(a) == Some("--signal and --secret go together"@),
{
}

/// A full URL of either scheme is used as it is; anything else is taken for a host, and
/// the URL is made round it.
pub proof fn law_signal_urls(rest: Seq<char>, s: Seq<char>)
    ensures
        url_for("ws://"@ + rest) == "ws://"@ + rest,
        url_for("wss://"@ + rest) == "wss://"@ + rest,
        !(s.len() >= 5 && s.take(5) == "ws://"@) && !(s.len() >= 6 && s.take(6) == "wss://"@)
            ==> url_for(s) == "ws://"@ + s + "/ws"@,
{
    reveal_strlit("ws://");
    reveal_strlit("wss://");
    assert(("ws://"@ + rest).take(5) =~= "ws://"@);
    assert(("wss://"@ + rest).take(6) =~= "wss://"@);
}

/// A peer is allowed exactly where its very address is on the list.
pub proof fn law_allowlist_is_exact(allow: Seq<IpAddr>, peer: IpAddr, i: int)
    ensures
        0 <= i < allow.len() && allow[i] == peer ==> on_allowlist(allow, peer),
        (forall|k: int| 0 <= k < allow.len() ==> #[trigger] allow[k] != peer) ==> !on_allowlist(
            allow,
            peer,
        ),
{
    if 0 <= i < allow.len() && allow[i] == peer {
        assert(allow.contains(peer));
    }
}

} // verus!
