//! Rebuild triggers: directives that tie the freshness of generated artifacts
//! to a file or an environment variable.

use vstd::prelude::*;
use crate::text::join2;

verus! {

/// A file or an environment variable whose change must rerun the generation.
pub enum RebuildTrigger {
    File(String),
    EnvVar(String),
}

/// The directive line that declares the trigger to the build system.
pub open spec fn directive_of(t: RebuildTrigger) -> Seq<char> {
    match t {
        RebuildTrigger::File(path) => "cargo:rerun-if-changed="@ + path@,
        RebuildTrigger::EnvVar(name) => "cargo:rerun-if-env-changed="@ + name@,
    }
}

impl RebuildTrigger {
    /// The directive line for this trigger.
    pub fn directive(&self) -> (r: String)
        ensures
            r@ == directive_of(*self),
    {
        match self {
            RebuildTrigger::File(path) => join2("cargo:rerun-if-changed=", path.as_str()),
            RebuildTrigger::EnvVar(name) => join2("cargo:rerun-if-env-changed=", name.as_str()),
        }
    }
}

} // verus!
