//! Ephemeral TURN credentials for coturn's REST API (`use-auth-secret` /
//! `static-auth-secret`). The signal server mints a short-lived credential per
//! registration so long-lived TURN passwords never live in clients.
//!
//! Format (coturn REST):
//!   username   = "<absolute_unix_expiry>:<userid>"
//!   credential = base64( HMAC-SHA1(static_secret, username) )   // raw 20 bytes
//!
//! The timestamp is an ABSOLUTE expiry (now + ttl), not a duration: coturn
//! rejects usernames whose timestamp is already in the past.

use vstd::prelude::*;
use vstd::utf8::encode_utf8;

use super::protocol::{clone_texts, ice_view, text_opt, texts, IceModel, IceServer};
use crate::crypto::{base64_encode, base64_text, hmac_sha1, hmac_sha1_tag};
use crate::text::{decimal, push_numeral};

verus! {

/// The username of a credential that is good until `expiry`.
pub open spec fn turn_username(expiry: nat, userid: Seq<char>) -> Seq<char> {
    decimal(expiry).push(':') + userid
}

/// The password that belongs to a username.
pub open spec fn turn_password(secret: Seq<char>, username: Seq<char>) -> Seq<char> {
    base64_text(hmac_sha1(encode_utf8(secret), encode_utf8(username)))
}

/// Mint a coturn ephemeral credential pair.
pub fn mint_turn_credential(
    static_secret: &str,
    ttl_secs: u64,
    now_unix: u64,
    userid: &str,
) -> (r: (String, String))
    requires
        now_unix + ttl_secs <= u64::MAX,
    ensures
        r.0@ == turn_username((now_unix + ttl_secs) as nat, userid@),
        r.1@ == turn_password(static_secret@, r.0@),
        hmac_sha1(encode_utf8(static_secret@), encode_utf8(r.0@)).len() == 20,
        r.1@.len() == 28,
        r.1@.last() == '=',
        forall|i: int| 0 <= i < 27 ==> #[trigger] r.1@[i] != '=',
{
    let expiry: u64 = now_unix + ttl_secs;
    let mut username: String = String::new();
    push_numeral(&mut username, expiry, 10);
    username.push(':');
    username.append(userid);
    assert(username@ =~= turn_username(expiry as nat, userid@));
    let tag: Vec<u8> = hmac_sha1_tag(static_secret.as_bytes(), username.as_str().as_bytes());
    let credential: String = base64_encode(tag.as_slice());
    (username, credential)
}

/// Configuration for what ICE servers to advertise to peers.
#[derive(Debug, Clone)]
pub struct IceConfig {
    pub stun_urls: Vec<String>,
    pub turn_urls: Vec<String>,
    pub turn_secret: Option<String>,
    pub turn_ttl: u64,
}

/// The configuration as a value.
#[verifier::ext_equal]
pub struct IceConfigModel {
    pub stun_urls: Seq<Seq<char>>,
    pub turn_urls: Seq<Seq<char>>,
    pub turn_secret: Option<Seq<char>>,
    pub turn_ttl: u64,
}

impl View for IceConfig {
    type V = IceConfigModel;

    open spec fn view(&self) -> IceConfigModel {
        IceConfigModel {
            stun_urls: texts(self.stun_urls@),
            turn_urls: texts(self.turn_urls@),
            turn_secret: text_opt(self.turn_secret),
            turn_ttl: self.turn_ttl,
        }
    }
}

/// The STUN entry, where there is one.
pub open spec fn stun_entries(c: IceConfigModel) -> Seq<IceModel> {
    if c.stun_urls.len() == 0 {
        Seq::empty()
    } else {
        seq![IceModel { urls: c.stun_urls, username: None, credential: None }]
    }
}

/// Whether a TURN entry is advertised: a secret and at least one URL.
pub open spec fn has_turn(c: IceConfigModel) -> bool {
    c.turn_secret is Some && c.turn_urls.len() > 0
}

/// The TURN entry, where there is one, with a credential of its own.
pub open spec fn turn_entries(c: IceConfigModel, userid: Seq<char>, now: u64) -> Seq<IceModel> {
    if !has_turn(c) {
        Seq::empty()
    } else {
        let username = turn_username((now + c.turn_ttl) as nat, userid);
        seq![
            IceModel {
                urls: c.turn_urls,
                username: Some(username),
                credential: Some(turn_password(c.turn_secret->0, username)),
            },
        ]
    }
}

/// What a peer is told to use.
pub open spec fn ice_for(c: IceConfigModel, userid: Seq<char>, now: u64) -> Seq<IceModel> {
    stun_entries(c) + turn_entries(c, userid, now)
}

impl IceConfig {
    /// Build the per-peer ICE server list: STUN entries plus, if a TURN secret
    /// is configured, one TURN entry with a freshly minted credential.
    pub fn ice_servers_for(&self, userid: &str, now_unix: u64) -> (servers: Vec<IceServer>)
        requires
            has_turn(self@) ==> now_unix + self.turn_ttl <= u64::MAX,
        ensures
            ice_view(servers@) == ice_for(self@, userid@, now_unix),
    {
        let mut servers: Vec<IceServer> = Vec::new();
        if self.stun_urls.len() > 0 {
            servers.push(
                IceServer {
                    urls: clone_texts(&self.stun_urls),
                    username: None,
                    credential: None,
                },
            );
        }
        assert(ice_view(servers@) =~= stun_entries(self@));
        if let Some(secret) = &self.turn_secret {
            if self.turn_urls.len() > 0 {
                let (username, credential) = mint_turn_credential(
                    secret.as_str(),
                    self.turn_ttl,
                    now_unix,
                    userid,
                );
                servers.push(
                    IceServer {
                        urls: clone_texts(&self.turn_urls),
                        username: Some(username),
                        credential: Some(credential),
                    },
                );
            }
        }
        assert(ice_view(servers@) =~= ice_for(self@, userid@, now_unix));
        servers
    }
}

} // verus!
