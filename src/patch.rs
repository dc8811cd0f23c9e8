//! Applying the fixed patch to the dumped header with the version-control
//! tool, and telling a skipped patch from an applied one.

use vstd::prelude::*;
use vstd::utf8::{decode_utf8, valid_utf8};
use crate::error::BuildError;
use crate::paths::{parent_dir, parent_of};
use crate::process::{check_exit, log_of, output_text, ExternalCommand, ProcessOutput};
use crate::text::{contains_seq, contains_text};

verus! {

/// The text the patch tool writes to standard error for a hunk it did not apply.
pub open spec fn skip_marker() -> Seq<char> {
    "Skipped"@
}

/// The directory the patch is applied from: the parent of the header's
/// directory, since the patch's paths are relative to that root.
pub open spec fn patch_root(header: Seq<char>) -> Option<Seq<char>> {
    match parent_of(header) {
        Some(d) => parent_of(d),
        None => None,
    }
}

/// The directory the patch for `header` is applied from, as [`patch_root`]
/// describes it.
pub fn patch_root_dir(header: &str) -> (r: Option<String>)
    ensures
        r matches Some(d) ==> patch_root(header@) == Some(d@),
        r is None ==> patch_root(header@) is None,
{
    match parent_dir(header) {
        Some(d) => parent_dir(d.as_str()),
        None => None,
    }
}

/// Whether `cmd` is `<vcs> apply -v <patch>` run from `root`.
pub open spec fn is_apply_command(
    cmd: ExternalCommand,
    vcs: Seq<char>,
    patch: Seq<char>,
    root: Seq<char>,
) -> bool {
    &&& cmd.program@ == vcs
    &&& cmd.args@.len() == 3
    &&& cmd.args@[0]@ == "apply"@
    &&& cmd.args@[1]@ == "-v"@
    &&& cmd.args@[2]@ == patch
    &&& cmd.cwd matches Some(c) && c@ == root
}

/// The command that applies `patch` to the tree that holds `header`.
/// Fails where the header path has no grandparent directory.
pub fn patch_command(vcs: &str, header: &str, patch: &str) -> (r: Result<ExternalCommand, BuildError>)
    ensures
        patch_root(header@) matches Some(root) ==> (r matches Ok(cmd) && is_apply_command(
            cmd,
            vcs@,
            patch@,
            root,
        )),
        patch_root(header@) is None ==> (r matches Err(BuildError::FileIoFailure { path })
            && path@ == header@),
{
    let root = match patch_root_dir(header) {
        Some(r) => r,
        None => return Err(BuildError::FileIoFailure { path: header.to_owned() }),
    };
    let args = vec!["apply".to_owned(), "-v".to_owned(), patch.to_owned()];
    Ok(ExternalCommand { program: vcs.to_owned(), args, cwd: Some(root) })
}

/// How the patch step ends for a given outcome of the patch tool.
pub open spec fn patch_error_ok(e: BuildError, out: ProcessOutput, patch: Seq<char>) -> bool {
    if !out.success {
        e matches BuildError::ProcessExitFailure { context, log } && context@ == "apply patch"@
            && log@ == log_of(out.stdout@, out.stderr@, out.status@)
    } else if !valid_utf8(out.stderr@) {
        e matches BuildError::EncodingFailure { context } && context@ == "apply patch"@
    } else {
        e matches BuildError::PatchSkipped { patch: p } && p@ == patch
    }
}

/// Whether the patch tool's outcome counts as an applied patch: a success
/// status and no skip marker in its standard error.
pub open spec fn patch_applied(out: ProcessOutput) -> bool {
    out.success && valid_utf8(out.stderr@) && !contains_seq(
        decode_utf8(out.stderr@),
        skip_marker(),
    )
}

/// Judges the patch tool's outcome. A success status is not enough: a skip
/// marker in standard error fails the step too.
pub fn check_patch_outcome(out: ProcessOutput, patch: &str) -> (r: Result<ProcessOutput, BuildError>)
    ensures
        patch_applied(out) ==> r == Ok::<ProcessOutput, BuildError>(out),
        !patch_applied(out) ==> (r matches Err(e) && patch_error_ok(e, out, patch@)),
{
    let out = match check_exit(out, "apply patch") {
        Ok(o) => o,
        Err(e) => return Err(e),
    };
    let stderr = out.stderr.clone();
    let text = match output_text(stderr, "apply patch") {
        Ok(t) => t,
        Err(e) => return Err(e),
    };
    let marker = "Skipped";
    if contains_text(text.as_str(), marker) {
        Err(BuildError::PatchSkipped { patch: patch.to_owned() })
    } else {
        Ok(out)
    }
}

} // verus!
