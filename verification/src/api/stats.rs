//! The counters of a user's year, and how an answer of the service is read.

use crate::api::structures::{GithubGraphQLError, GithubGraphQLResponse};
use crate::utils::text::{push_signed_decimal, signed_decimal};
use vstd::prelude::*;
use vstd::string::StringExecFns;

verus! {

#[derive(Debug)]
pub struct Data {
    pub user: Option<User>,
}

#[derive(Clone, Debug)]
pub struct User {
    pub login: String,
    pub contributions_collection: ContributionsCollection,
}

#[derive(Clone, Copy, Debug)]
pub struct ContributionsCollection {
    pub total_commit_contributions: i32,
    pub total_issue_contributions: i32,
    pub total_pull_request_contributions: i32,
    pub total_pull_request_review_contributions: i32,
    pub total_repositories_with_contributed_commits: i32,
    pub total_repositories_with_contributed_issues: i32,
    pub total_repositories_with_contributed_pull_requests: i32,
    pub total_repositories_with_contributed_pull_request_reviews: i32,
}

/// An error is one of the kind that stands for an answer that could not be
/// read: it has that type and message, names `path` as its path, and no
/// location.
pub open spec fn is_failure(
    error: GithubGraphQLError,
    error_type: Seq<char>,
    message: Seq<char>,
    path: Seq<Seq<char>>,
) -> bool {
    &&& error.error_type@ == error_type
    &&& error.message@ == message
    &&& error.locations@.len() == 0
    &&& error.path@.len() == path.len()
    &&& forall|i: int| 0 <= i < path.len() ==> (#[trigger] error.path@[i])@ == path[i]
}

/// The first moment of a year, as the service wants it written.
pub open spec fn year_start_text(year: i32) -> Seq<char> {
    signed_decimal(year as int) + "-01-01T00:00:00Z"@
}

/// The last second of a year, as the service wants it written.
pub open spec fn year_end_text(year: i32) -> Seq<char> {
    signed_decimal(year as int) + "-12-31T23:59:59Z"@
}

/// The error that stands for a request that got no answer; `message` says
/// why.
pub fn request_error(message: String) -> (errors: Vec<GithubGraphQLError>)
    ensures
        errors@.len() == 1,
        is_failure(errors@[0], "RequestError"@, message@, Seq::empty()),
{
    let mut errors = Vec::new();
    errors.push(
        GithubGraphQLError {
            error_type: "RequestError".to_string(),
            locations: Vec::new(),
            message,
            path: Vec::new(),
        },
    );
    errors
}

/// The period of a year that the counters are asked for: its first moment
/// and its last second.
pub fn year_period(year: i32) -> (period: (String, String))
    ensures
        period.0@ == year_start_text(year),
        period.1@ == year_end_text(year),
{
    let mut from = String::new();
    push_signed_decimal(&mut from, year as i64);
    from.append("-01-01T00:00:00Z");
    let mut to = String::new();
    push_signed_decimal(&mut to, year as i64);
    to.append("-12-31T23:59:59Z");
    (from, to)
}

/// Reads the answer to a question for a user's counters. An answer with
/// data and without errors gives the user of the data; one with errors and
/// without data gives the errors; any other gives one error that calls the
/// user invalid. An answer with data and without errors names a user.
pub fn stats_from_response(user_name: &str, response: GithubGraphQLResponse<Data>) -> (stats: Result<
    User,
    Vec<GithubGraphQLError>,
>)
    requires
        response.data is Some && response.errors is None ==> response.data->0.user is Some,
    ensures
        response.data is Some && response.errors is None ==> stats == Ok::<
            User,
            Vec<GithubGraphQLError>,
        >(response.data->0.user->0),
        response.data is None && response.errors is Some ==> stats == Err::<
            User,
            Vec<GithubGraphQLError>,
        >(response.errors->0),
        (response.data is Some) == (response.errors is Some) ==> stats is Err && stats->Err_0@.len()
            == 1 && is_failure(
            stats->Err_0@[0],
            "ResponseError"@,
            "Invalid user: "@ + user_name@,
            seq!["unknown"@],
        ),
{
    let GithubGraphQLResponse { data, errors } = response;
    match (data, errors) {
        (Some(data), None) => {
            match data.user {
                Some(user) => Ok(user),
                None => Err(Vec::new()),
            }
        },
        (None, Some(errors)) => Err(errors),
        _ => {
            let mut message = "Invalid user: ".to_string();
            message.append(user_name);
            let mut path = Vec::new();
            path.push("unknown".to_string());
            let mut errors = Vec::new();
            errors.push(
                GithubGraphQLError {
                    error_type: "ResponseError".to_string(),
                    locations: Vec::new(),
                    message,
                    path,
                },
            );
            Err(errors)
        },
    }
}

} // verus!
