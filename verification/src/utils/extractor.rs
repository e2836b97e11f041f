//! The origin that a request was sent to: scheme, host and port, as the
//! address of the request and its headers tell them.

use crate::utils::http::{parse_u64, parsed_u64};
use crate::utils::text::{decimal, push_decimal};
use vstd::prelude::*;
use vstd::string::StringExecFns;
use vstd::utf8::encode_utf8;

verus! {

pub struct ExtractFullOrigin(pub String);

/// The value of a header of a request.
pub enum HeaderText<'a> {
    /// The request has no such header.
    Absent,
    /// The request has the header, with a value that is no text.
    Unreadable,
    /// The request has the header with this value.
    Text(&'a str),
}

/// What a request tells of where it was sent: the scheme, host and port of
/// its address, as far as the address has them, and its headers
/// `x-forwarded-proto`, `host`, `x-forwarded-host` and `x-forwarded-port`.
pub struct OriginParts<'a> {
    pub scheme: Option<&'a str>,
    pub host: Option<&'a str>,
    pub port: Option<u16>,
    pub forwarded_proto: HeaderText<'a>,
    pub host_header: HeaderText<'a>,
    pub forwarded_host: HeaderText<'a>,
    pub forwarded_port: HeaderText<'a>,
}

/// The port when nothing tells another.
pub const DEFAULT_PORT: u16 = 80;

/// The text has a colon.
pub open spec fn has_colon(text: Seq<char>) -> bool {
    exists|i: int| 0 <= i < text.len() && text[i] == ':'
}

/// What a header says: its value where the request has the header with a
/// text as its value, and `fallback` where it has the header with another
/// value; nothing where it has no such header.
pub open spec fn said(header: HeaderText, fallback: Seq<char>) -> Option<Seq<char>> {
    match header {
        HeaderText::Absent => None,
        HeaderText::Unreadable => Some(fallback),
        HeaderText::Text(text) => Some(text@),
    }
}

/// The scheme of the origin: that of the address, else what the header
/// `x-forwarded-proto` says, else `http`.
pub open spec fn origin_scheme(parts: OriginParts) -> Seq<char> {
    match parts.scheme {
        Some(scheme) => scheme@,
        None => match said(parts.forwarded_proto, "http"@) {
            Some(scheme) => scheme,
            None => "http"@,
        },
    }
}

/// The host of the origin: that of the address, else what the header `host`
/// says, else what the header `x-forwarded-host` says, else `localhost`.
pub open spec fn origin_host(parts: OriginParts) -> Seq<char> {
    match parts.host {
        Some(host) => host@,
        None => match said(parts.host_header, "localhost"@) {
            Some(host) => host,
            None => match said(parts.forwarded_host, "localhost"@) {
                Some(host) => host,
                None => "localhost"@,
            },
        },
    }
}

/// The port of the origin: that of the address, else the one that the
/// header `x-forwarded-port` names, a number that a `u16` holds, else 80.
pub open spec fn origin_port(parts: OriginParts) -> u16 {
    match parts.port {
        Some(port) => port,
        None => match parts.forwarded_port {
            HeaderText::Text(text) => match parsed_u64(encode_utf8(text@)) {
                Some(port) => if port <= u16::MAX {
                    port as u16
                } else {
                    DEFAULT_PORT
                },
                None => DEFAULT_PORT,
            },
            _ => DEFAULT_PORT,
        },
    }
}

/// The origin: scheme, `://`, host, and a colon and the port unless the
/// host has a colon, and so a port, itself.
pub open spec fn origin_text(parts: OriginParts) -> Seq<char> {
    let port = if has_colon(origin_host(parts)) {
        Seq::empty()
    } else {
        seq![':'] + decimal(origin_port(parts) as nat)
    };
    origin_scheme(parts) + "://"@ + origin_host(parts) + port
}

fn contains_colon(text: &str) -> (found: bool)
    ensures
        found == has_colon(text@),
{
    let source = text.chars();
    let mut found = false;
    for c in it: source
        invariant
            it.seq() == text@,
            found == has_colon(text@.take(it.index())),
    {
        proof {
            let before = text@.take(it.index());
            let after = text@.take(it.index() + 1);
            if has_colon(before) {
                let i = choose|i: int| 0 <= i < before.len() && before[i] == ':';
                assert(after[i] == ':');
            }
            if has_colon(after) && c != ':' {
                let i = choose|i: int| 0 <= i < after.len() && after[i] == ':';
                assert(before[i] == ':');
            }
            if c == ':' {
                assert(after[it.index()] == ':');
            }
        }
        if c == ':' {
            found = true;
        }
    }
    assert(text@.take(text@.len() as int) =~= text@);
    found
}

fn say<'a>(header: &HeaderText<'a>, fallback: &'static str) -> (text: Option<&'a str>)
    ensures
        text is Some == said(*header, fallback@) is Some,
        text matches Some(found) ==> said(*header, fallback@) == Some(found@),
{
    match header {
        HeaderText::Absent => None,
        HeaderText::Unreadable => Some(fallback),
        HeaderText::Text(text) => Some(*text),
    }
}

fn port_of(parts: &OriginParts) -> (port: u16)
    ensures
        port == origin_port(*parts),
{
    match parts.port {
        Some(port) => port,
        None => match parts.forwarded_port {
            HeaderText::Text(text) => {
                let bytes = text.as_bytes();
                assert(bytes@.take(bytes@.len() as int) =~= bytes@);
                match parse_u64(bytes, bytes.len()) {
                    Some(port) => if port <= u16::MAX as u64 {
                        port as u16
                    } else {
                        DEFAULT_PORT
                    },
                    None => DEFAULT_PORT,
                }
            },
            _ => DEFAULT_PORT,
        },
    }
}

/// The origin that a request was sent to: see [`origin_text`].
pub fn full_origin(parts: &OriginParts) -> (origin: ExtractFullOrigin)
    ensures
        origin.0@ == origin_text(*parts),
{
    let scheme: &str = match parts.scheme {
        Some(scheme) => scheme,
        None => match say(&parts.forwarded_proto, "http") {
            Some(scheme) => scheme,
            None => "http",
        },
    };
    let host: &str = match parts.host {
        Some(host) => host,
        None => match say(&parts.host_header, "localhost") {
            Some(host) => host,
            None => match say(&parts.forwarded_host, "localhost") {
                Some(host) => host,
                None => "localhost",
            },
        },
    };
    let mut origin = scheme.to_string();
    origin.append("://");
    origin.append(host);
    if !contains_colon(host) {
        origin.push(':');
        push_decimal(&mut origin, port_of(parts) as u64);
    }
    ExtractFullOrigin(origin)
}

} // verus!
