//! The envelope of an answer of the GraphQL service.

use vstd::prelude::*;

verus! {

#[derive(Debug)]
pub struct GithubGraphQLResponse<T> {
    pub data: Option<T>,
    pub errors: Option<Vec<GithubGraphQLError>>,
}

#[derive(Clone, Debug)]
pub struct GithubGraphQLError {
    pub error_type: String,
    pub path: Vec<String>,
    pub locations: Vec<Location>,
    pub message: String,
}

#[derive(Clone, Debug)]
pub struct Location {
    pub line: i32,
    pub column: i32,
}

} // verus!
