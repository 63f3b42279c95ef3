//! The handler for routes that nothing else serves.
use vstd::prelude::*;
use vstd::string::StringExecFns;
use crate::common::{HandlerError, Request, ResponseType, result_view, string_response};
use crate::config::Config;
use vstd::hash_map::StringHashMap;

verus! {

/// Answers with the plain text `not found`.
pub fn handle(
    request: &Request,
    route: Vec<String>,
    params: StringHashMap<String>,
    config: &Config,
) -> (res: Result<ResponseType, HandlerError>)
    ensures
        result_view(res) == Ok::<_, crate::common::HandlerErrorView>(string_response("not found"@)),
{
    Ok(ResponseType::from_string(String::from_str("not found")))
}

} // verus!
