//! The settings of the service, as the environment gives them, where a
//! token is not asked for.

use crate::utils::http::{parse_u64, parsed_u64};
use vstd::prelude::*;
use vstd::utf8::encode_utf8;

verus! {

#[derive(Clone, Debug)]
pub struct Env {
    pub port: u16,
    pub host: String,
    pub token: String,
}

/// The port when the environment names none.
pub const DEFAULT_PORT: u16 = 41890;

/// The port when the environment names one that cannot be read.
pub const FALLBACK_PORT: u16 = 18080;

/// The host when the environment names none.
pub const DEFAULT_HOST: &'static str = "http://localhost/";

/// The port that a text names: a number that a `u16` holds.
pub open spec fn port_of(text: Seq<char>) -> Option<u16> {
    match parsed_u64(encode_utf8(text)) {
        Some(port) => if port <= u16::MAX {
            Some(port as u16)
        } else {
            None
        },
        None => None,
    }
}

/// Reads a port: see [`port_of`].
pub fn parse_port(text: &str) -> (port: Option<u16>)
    ensures
        port == port_of(text@),
{
    let bytes = text.as_bytes();
    assert(bytes@.take(bytes@.len() as int) =~= bytes@);
    match parse_u64(bytes, bytes.len()) {
        Some(port) => if port <= u16::MAX as u64 {
            Some(port as u16)
        } else {
            None
        },
        None => None,
    }
}

impl Env {
    /// The settings for what the environment holds under `PORT`, `HOST` and
    /// `GITHUB_TOKEN`: the port it names, [`FALLBACK_PORT`] where that
    /// cannot be read and [`DEFAULT_PORT`] where it names none; the host it
    /// names or [`DEFAULT_HOST`]; the token it names or none.
    pub fn new(port: Option<String>, host: Option<String>, token: Option<String>) -> (env: Self)
        ensures
            env.port == match port {
                Some(text) => match port_of(text@) {
                    Some(port) => port,
                    None => FALLBACK_PORT,
                },
                None => DEFAULT_PORT,
            },
            env.host@ == match host {
                Some(host) => host@,
                None => DEFAULT_HOST@,
            },
            env.token@ == match token {
                Some(token) => token@,
                None => Seq::<char>::empty(),
            },
    {
        let port = match port {
            Some(port) => match parse_port(port.as_str()) {
                Some(port) => port,
                None => FALLBACK_PORT,
            },
            None => DEFAULT_PORT,
        };
        let host = match host {
            Some(host) => host,
            None => DEFAULT_HOST.to_string(),
        };
        let token = match token {
            Some(token) => token,
            None => String::new(),
        };
        Self { port, host, token }
    }
}

} // verus!
