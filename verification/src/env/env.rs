//! The settings of the service, as the environment gives them, where a
//! token has to be there.

use crate::env::app::{parse_port, port_of, DEFAULT_HOST, DEFAULT_PORT};
use vstd::prelude::*;

verus! {

#[derive(Clone, Debug)]
pub struct Env {
    pub port: u16,
    pub host: String,
    pub token: String,
}

impl Env {
    /// The settings for what the environment holds under `PORT`, `HOST` and
    /// `GITHUB_TOKEN`: the port it names, and [`DEFAULT_PORT`] where it
    /// names none or one that cannot be read; the host it names or
    /// [`DEFAULT_HOST`]; and the token, which it has to name.
    pub fn new(port: Option<String>, host: Option<String>, token: Option<String>) -> (env: Self)
        requires
            token is Some,
        ensures
            env.port == match port {
                Some(text) => match port_of(text@) {
                    Some(port) => port,
                    None => DEFAULT_PORT,
                },
                None => DEFAULT_PORT,
            },
            env.host@ == match host {
                Some(host) => host@,
                None => DEFAULT_HOST@,
            },
            env.token == token->0,
    {
        let port = match port {
            Some(port) => match parse_port(port.as_str()) {
                Some(port) => port,
                None => DEFAULT_PORT,
            },
            None => DEFAULT_PORT,
        };
        let host = match host {
            Some(host) => host,
            None => DEFAULT_HOST.to_string(),
        };
        let token = match token {
            Some(token) => token,
            None => String::new(),
        };
        Self { port, host, token }
    }
}

} // verus!
