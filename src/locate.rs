//! Finding the two external tools: an environment override wins, otherwise
//! the executable search path is consulted.

use vstd::prelude::*;
use crate::error::{message_of, BuildError};
use crate::text::contains_seq;

verus! {

/// An external tool: the environment variable that overrides its path and the
/// program name looked up on the search path.
pub struct Tool {
    pub env_var: String,
    pub program: String,
    /// Whether a change of the override must trigger a rebuild.
    pub watch_env: bool,
}

impl Tool {
    /// The engine binary: `ENGINE_BIN`, else `engine4` on the search path.
    pub fn engine() -> (r: Tool)
        ensures
            r.env_var@ == "ENGINE_BIN"@,
            r.program@ == "engine4"@,
            r.watch_env,
    {
        Tool { env_var: "ENGINE_BIN".to_owned(), program: "engine4".to_owned(), watch_env: true }
    }

    /// The version-control tool: `VCS_BIN`, else `git` on the search path.
    /// A change of `VCS_BIN` triggers no rebuild.
    pub fn vcs() -> (r: Tool)
        ensures
            r.env_var@ == "VCS_BIN"@,
            r.program@ == "git"@,
            !r.watch_env,
    {
        Tool { env_var: "VCS_BIN".to_owned(), program: "git".to_owned(), watch_env: false }
    }
}

/// Relies on `which::which`: the first executable of that name on the search
/// path, if any; a path that is not valid Unicode counts as none. The result
/// depends on the environment and the disk, so nothing is stated of it.
#[verifier::external_body]
fn which_executable(program: &str) -> (r: Option<String>) {
    which::which(program).ok().and_then(|p| p.into_os_string().into_string().ok())
}

/// Looks `program` up on the executable search path.
pub fn search_executable(program: &str) -> (r: Option<String>) {
    which_executable(program)
}

/// The error for a tool that neither its override nor the search path gave.
pub open spec fn is_not_found_for(e: BuildError, tool: Tool) -> bool {
    e matches BuildError::ToolNotFound { env_var, program } && env_var@ == tool.env_var@
        && program@ == tool.program@
}

/// Resolves a tool's path from the override value and the search result.
/// The override is used verbatim, without any check that it exists.
pub fn choose_executable(tool: &Tool, env_value: Option<String>, found: Option<String>) -> (r:
    Result<String, BuildError>)
    ensures
        env_value is Some ==> r == Ok::<String, BuildError>(env_value->0),
        env_value is None && found is Some ==> r == Ok::<String, BuildError>(found->0),
        env_value is None && found is None ==> r is Err && is_not_found_for(r->Err_0, *tool),
{
    match env_value {
        Some(path) => Ok(path),
        None => match found {
            Some(path) => Ok(path),
            None => Err(
                BuildError::ToolNotFound {
                    env_var: tool.env_var.clone(),
                    program: tool.program.clone(),
                },
            ),
        },
    }
}

/// Resolves a tool's path: the override when set, else a search-path lookup.
pub fn locate_executable(tool: &Tool, env_value: Option<String>) -> (r: Result<String, BuildError>)
    ensures
        env_value is Some ==> r == Ok::<String, BuildError>(env_value->0),
        env_value is None ==> r is Ok || is_not_found_for(r->Err_0, *tool),
{
    let found = match env_value {
        Some(_) => None,
        None => search_executable(tool.program.as_str()),
    };
    choose_executable(tool, env_value, found)
}

/// With no override and nothing on the search path, the failure's message
/// names both the environment variable and the program.
pub proof fn lemma_missing_tool_is_named(e: BuildError, tool: Tool)
    requires
        is_not_found_for(e, tool),
    ensures
        contains_seq(message_of(e), tool.env_var@),
        contains_seq(message_of(e), tool.program@),
{
    let m = message_of(e);
    let a = "requires '"@;
    let b = "' executable or a "@;
    let i = a.len() as int;
    let j = (a + tool.program@ + b).len() as int;
    assert(m.subrange(i, i + tool.program@.len()) =~= tool.program@);
    assert(m.subrange(j, j + tool.env_var@.len()) =~= tool.env_var@);
}

} // verus!
