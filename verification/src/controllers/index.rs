//! What a request asks for, and the headers that its answer carries.

use crate::utils::text::{push_signed_decimal, signed_decimal};
use vstd::prelude::*;
use vstd::string::StringExecFns;

verus! {

pub struct Options {
    pub user_name: Option<String>,
    pub year: Option<i32>,
}

/// What a request asks for.
pub enum Asked {
    /// The page that asks for a user and a year.
    Page,
    /// The farm of a user's year.
    Farm { user_name: String, year: i32 },
}

/// The age for which an answer that succeeded may be kept.
pub const KEPT_AGE: &'static str = "1h";

/// The age of an answer that may not be kept.
pub const NO_AGE: &'static str = "0";

/// A header has this name and this value.
pub open spec fn is_header(header: (&'static str, String), name: Seq<char>, value: Seq<char>) -> bool {
    header.0@ == name && header.1@ == value
}

/// The name under which the image of a user's year is saved.
pub open spec fn disposition_text(user_name: Seq<char>, year: i32) -> Seq<char> {
    "inline; filename=\""@ + user_name + "-gitgarden-"@ + signed_decimal(year as int) + ".svg\""@
}

/// Decides what a request asks for: the farm of a user where it names one,
/// for the year it names or else the current year; the page where it names
/// no user.
pub fn asked(options: Options, current_year: i32) -> (request: Asked)
    ensures
        options.user_name is None ==> request is Page,
        options.user_name matches Some(name) ==> request == (Asked::Farm {
            user_name: name,
            year: match options.year {
                Some(year) => year,
                None => current_year,
            },
        }),
{
    let Options { user_name, year } = options;
    match user_name {
        None => Asked::Page,
        Some(user_name) => Asked::Farm {
            user_name,
            year: match year {
                Some(year) => year,
                None => current_year,
            },
        },
    }
}

/// The headers of the page, besides those that say how long it may be
/// kept.
pub fn page_headers() -> (headers: Vec<(&'static str, String)>)
    ensures
        headers@.len() == 1,
        is_header(headers@[0], "Content-Type"@, "text/html"@),
{
    let mut headers = Vec::new();
    headers.push(("Content-Type", "text/html".to_string()));
    headers
}

/// The headers of an image, besides those that say how long it may be
/// kept.
pub fn farm_headers(user_name: &str, year: i32, origin: &str) -> (headers: Vec<
    (&'static str, String),
>)
    ensures
        headers@.len() == 6,
        is_header(headers@[0], "Content-Type"@, "image/svg+xml"@),
        is_header(headers@[1], "Accept-Ch"@, "UA, UA-Mobile, Save-Data, RTT"@),
        is_header(headers@[2], "Referrer-Policy"@, "same-origin"@),
        is_header(headers@[3], "Content-Disposition"@, disposition_text(user_name@, year)),
        is_header(headers@[4], "Access-Control-Allow-Origin"@, origin@),
        is_header(headers@[5], "X-Content-Type-Options"@, "nosniff"@),
{
    let mut disposition = "inline; filename=\"".to_string();
    disposition.append(user_name);
    disposition.append("-gitgarden-");
    push_signed_decimal(&mut disposition, year as i64);
    disposition.append(".svg\"");
    let mut headers = Vec::new();
    headers.push(("Content-Type", "image/svg+xml".to_string()));
    headers.push(("Accept-Ch", "UA, UA-Mobile, Save-Data, RTT".to_string()));
    headers.push(("Referrer-Policy", "same-origin".to_string()));
    headers.push(("Content-Disposition", disposition));
    headers.push(("Access-Control-Allow-Origin", origin.to_string()));
    headers.push(("X-Content-Type-Options", "nosniff".to_string()));
    headers
}

/// The headers of an answer that says what went wrong, besides those that
/// say that it may not be kept.
pub fn failure_headers(origin: &str) -> (headers: Vec<(&'static str, String)>)
    ensures
        headers@.len() == 2,
        is_header(headers@[0], "Access-Control-Allow-Origin"@, origin@),
        is_header(headers@[1], "X-Content-Type-Options"@, "nosniff"@),
{
    let mut headers = Vec::new();
    headers.push(("Access-Control-Allow-Origin", origin.to_string()));
    headers.push(("X-Content-Type-Options", "nosniff".to_string()));
    headers
}

} // verus!
