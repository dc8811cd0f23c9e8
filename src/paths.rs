//! Where generated artifacts live, and the lexical parent of a path.
//!
//! Paths are text with `/` as the separator.

use vstd::prelude::*;
use crate::text::join2;

verus! {

/// The roots under which the pipeline reads and writes its files.
pub struct ArtifactLayout {
    /// Build-generated root; the generated files go under `godot-gen/` in it.
    /// It need not exist beforehand.
    pub generated_root: String,
    /// Root of the resource files; the header patch is `res/tweak.patch` in it.
    pub resource_root: String,
}

impl ArtifactLayout {
    pub open spec fn version_file_spec(&self) -> Seq<char> {
        self.generated_root@ + "/godot-gen/godot_version.txt"@
    }

    pub open spec fn json_file_spec(&self) -> Seq<char> {
        self.generated_root@ + "/godot-gen/extension_api.json"@
    }

    pub open spec fn header_file_spec(&self) -> Seq<char> {
        self.generated_root@ + "/godot-gen/gdextension_interface.h"@
    }

    pub open spec fn patch_file_spec(&self) -> Seq<char> {
        self.resource_root@ + "/res/tweak.patch"@
    }

    /// The file that records the last engine version seen.
    pub fn version_file(&self) -> (r: String)
        ensures
            r@ == self.version_file_spec(),
    {
        join2(self.generated_root.as_str(), "/godot-gen/godot_version.txt")
    }

    /// The dumped extension API description.
    pub fn json_file(&self) -> (r: String)
        ensures
            r@ == self.json_file_spec(),
    {
        join2(self.generated_root.as_str(), "/godot-gen/extension_api.json")
    }

    /// The dumped C interface header.
    pub fn header_file(&self) -> (r: String)
        ensures
            r@ == self.header_file_spec(),
    {
        join2(self.generated_root.as_str(), "/godot-gen/gdextension_interface.h")
    }

    /// The patch applied to the header on every run.
    pub fn patch_file(&self) -> (r: String)
        ensures
            r@ == self.patch_file_spec(),
    {
        join2(self.resource_root.as_str(), "/res/tweak.patch")
    }
}

/// Index of the last `/` in `s`, or -1 where there is none.
pub open spec fn last_separator(s: Seq<char>) -> int
    decreases s.len(),
{
    if s.len() == 0 {
        -1
    } else if s.last() == '/' {
        s.len() - 1
    } else {
        last_separator(s.drop_last())
    }
}

/// `s` without trailing separators, except that `/` stays `/`.
pub open spec fn strip_trailing(s: Seq<char>) -> Seq<char>
    decreases s.len(),
{
    if s.len() > 1 && s.last() == '/' {
        strip_trailing(s.drop_last())
    } else {
        s
    }
}

/// The text before the last separator. A path whose only separator leads it
/// has `/` as parent, unless it is `/` itself; a path without separator has
/// no parent.
pub open spec fn lexical_parent(s: Seq<char>) -> Option<Seq<char>> {
    let i = last_separator(s);
    if i > 0 {
        Some(s.take(i))
    } else if i == 0 && s.len() > 1 {
        Some(seq!['/'])
    } else {
        None
    }
}

/// The parent of `s` once trailing separators are dropped, so that `a/b/`
/// has parent `a`. Repeated separators inside the path are kept as they are.
pub open spec fn parent_of(s: Seq<char>) -> Option<Seq<char>> {
    lexical_parent(strip_trailing(s))
}

proof fn lemma_last_separator(s: Seq<char>, k: int)
    requires
        -1 <= k < s.len(),
        k >= 0 ==> s[k] == '/',
        forall|j: int| k < j < s.len() ==> s[j] != '/',
    ensures
        last_separator(s) == k,
    decreases s.len(),
{
    if s.len() > 0 && s.last() != '/' {
        assert forall|j: int| k < j < s.drop_last().len() implies s.drop_last()[j] != '/' by {
            assert(s.drop_last()[j] == s[j]);
        }
        if k >= 0 {
            assert(s.drop_last()[k] == s[k]);
        }
        lemma_last_separator(s.drop_last(), k);
    }
}

/// The parent directory of `path`, as [`parent_of`] describes it.
pub fn parent_dir(path: &str) -> (r: Option<String>)
    ensures
        r matches Some(p) ==> parent_of(path@) == Some(p@),
        r is None ==> parent_of(path@) is None,
{
    let n = path.unicode_len();
    let mut e: usize = n;
    assert(path@.take(n as int) =~= path@);
    while e > 1 && path.get_char(e - 1) == '/'
        invariant
            n == path@.len(),
            e <= n,
            strip_trailing(path@.take(e as int)) == strip_trailing(path@),
        decreases e,
    {
        assert(path@.take(e as int).drop_last() =~= path@.take(e - 1));
        e = e - 1;
    }
    let stripped = path.substring_char(0, e);
    assert(stripped@ =~= path@.take(e as int));
    lexical_parent_dir(stripped)
}

fn lexical_parent_dir(path: &str) -> (r: Option<String>)
    ensures
        r matches Some(p) ==> lexical_parent(path@) == Some(p@),
        r is None ==> lexical_parent(path@) is None,
{
    let n = path.unicode_len();
    let mut i: usize = n;
    while i > 0 && path.get_char(i - 1) != '/'
        invariant
            n == path@.len(),
            i <= n,
            forall|j: int| i <= j < n ==> path@[j] != '/',
        decreases i,
    {
        i = i - 1;
    }
    proof {
        lemma_last_separator(path@, i - 1);
    }
    if i > 1 {
        Some(path.substring_char(0, i - 1).to_owned())
    } else if i == 1 && n > 1 {
        let root = "/".to_owned();
        proof {
            reveal_strlit("/");
            assert(root@ =~= seq!['/']);
        }
        Some(root)
    } else {
        None
    }
}

} // verus!
