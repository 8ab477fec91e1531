//! The webmaster's tools: which requests they answer and who may use them.

use crate::text::{owned, str_eq};
use vstd::prelude::*;

verus! {

/// The file the uploaded API is written to.
pub const API_FILE_NAME: &'static str = "api";

/// The message for a member who is not a webmaster.
pub open spec fn not_webmaster_message() -> Seq<char> {
    "You must be a webmaster to use this tool"@
}

/// The message for a path that names no tool.
pub open spec fn unknown_action_message(path: Seq<char>) -> Seq<char> {
    "The requested action \""@ + path + "\" does not exist."@
}

/// What a request to the tools asks for.
#[derive(Debug, Clone, Copy, PartialEq, Eq, Structural)]
pub enum AdminAction {
    /// The allowed methods and headers (a preflight request).
    Options,
    /// Replace the API executable with the request's body.
    UploadApi,
    /// Bring the database schema up to date.
    RunMigrations,
}

/// What a request gets: preflight requests are always answered; any other
/// needs a webmaster, and then its path names the tool.
pub open spec fn spec_handle_request(is_options: bool, is_webmaster: bool, path: Seq<char>) -> Result<
    AdminAction,
    Seq<char>,
> {
    if is_options {
        Ok(AdminAction::Options)
    } else if !is_webmaster {
        Err(not_webmaster_message())
    } else if path == "/upload-api"@ {
        Ok(AdminAction::UploadApi)
    } else if path == "/migrate"@ {
        Ok(AdminAction::RunMigrations)
    } else {
        Err(unknown_action_message(path))
    }
}

/// The characters of a result's error.
pub open spec fn result_view(r: Result<AdminAction, String>) -> Result<AdminAction, Seq<char>> {
    match r {
        Ok(a) => Ok(a),
        Err(m) => Err(m@),
    }
}

/// Refuses a member who does not hold the webmaster role.
pub fn ensure_member_is_webmaster(is_webmaster: bool) -> (result: Result<(), String>)
    ensures
        is_webmaster ==> result is Ok,
        !is_webmaster ==> (result matches Err(m) && m@ == not_webmaster_message()),
{
    if is_webmaster {
        Ok(())
    } else {
        Err(owned("You must be a webmaster to use this tool"))
    }
}

/// What a request to the tools asks for, or why it is refused; whether the
/// member is a webmaster matters only for requests that are not preflights.
pub fn handle_request(is_options: bool, is_webmaster: bool, path: &str) -> (result: Result<AdminAction, String>)
    ensures
        result_view(result) == spec_handle_request(is_options, is_webmaster, path@),
{
    if is_options {
        return Ok(AdminAction::Options);
    }
    match ensure_member_is_webmaster(is_webmaster) {
        Err(m) => Err(m),
        Ok(()) => {
            if str_eq(path, "/upload-api") {
                Ok(AdminAction::UploadApi)
            } else if str_eq(path, "/migrate") {
                Ok(AdminAction::RunMigrations)
            } else {
                let mut m = owned("The requested action \"");
                m.append(path);
                m.append("\" does not exist.");
                Err(m)
            }
        },
    }
}

/// The status and headers of the answer to a preflight request.
pub struct PreflightAnswer {
    /// The HTTP status.
    pub status: u16,
    /// The headers, name and value.
    pub headers: Vec<(&'static str, &'static str)>,
}

/// The answer to a preflight request: no content, and the methods and
/// headers the tools accept from any origin.
pub fn options() -> (answer: PreflightAnswer)
    ensures
        answer.status == 204,
        answer.headers@.len() == 4,
        answer.headers@[0].0@ == "Allow"@ && answer.headers@[0].1@ == "POST, OPTIONS"@,
        answer.headers@[1].0@ == "Access-Control-Allow-Origin"@ && answer.headers@[1].1@ == "*"@,
        answer.headers@[2].0@ == "Access-Control-Allow-Methods"@ && answer.headers@[2].1@ == "POST, OPTIONS"@,
        answer.headers@[3].0@ == "Access-Control-Allow-Headers"@ && answer.headers@[3].1@
            == "token,access-control-allow-origin,content-type"@,
{
    let headers = vec![
        ("Allow", "POST, OPTIONS"),
        ("Access-Control-Allow-Origin", "*"),
        ("Access-Control-Allow-Methods", "POST, OPTIONS"),
        ("Access-Control-Allow-Headers", "token,access-control-allow-origin,content-type"),
    ];
    PreflightAnswer { status: 204, headers }
}

} // verus!
