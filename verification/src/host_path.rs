//! File-system paths as text, joined and split by `std::path`.
//!
//! How a path is joined depends on the platform (`/` on Unix, `\` on
//! Windows), so the contracts here state only what holds on every platform.
use vstd::prelude::*;
use crate::text::{has_prefix, has_suffix};

verus! {

/// A relative path with no root, drive or prefix: it does not begin with a
/// separator and holds no drive mark.
pub open spec fn relative_part(part: Seq<char>) -> bool {
    &&& part.len() > 0
    &&& part[0] != '/'
    &&& part[0] != '\\'
    &&& forall|i: int| 0 <= i < part.len() ==> #[trigger] part[i] != ':'
}

/// A join onto `base` adds a separator on every platform: `base` is not
/// empty, holds no drive mark, and does not end in `/` or `\`.
pub open spec fn needs_separator(base: Seq<char>) -> bool {
    &&& base.len() > 0
    &&& base.last() != '/'
    &&& base.last() != '\\'
    &&& forall|i: int| 0 <= i < base.len() ==> #[trigger] base[i] != ':'
}

/// A join onto `base` adds nothing between: `base` is empty or ends in `/`.
pub open spec fn ends_open(base: Seq<char>) -> bool {
    base.len() == 0 || base.last() == '/'
}

/// `r` is `base` followed by `part`, with at most one separator (`/` or `\`)
/// between them: exactly one when `base` needs one, none when it is empty or
/// ends in `/`.
pub open spec fn path_joins(r: Seq<char>, base: Seq<char>, part: Seq<char>) -> bool {
    &&& has_prefix(r, base)
    &&& has_suffix(r, part)
    &&& (r.len() == base.len() + part.len() || r.len() == base.len() + part.len() + 1)
    &&& r.len() == base.len() + part.len() + 1 ==> (r[base.len() as int] == '/' || r[base.len() as int] == '\\')
    &&& needs_separator(base) ==> r.len() == base.len() + part.len() + 1
    &&& ends_open(base) ==> r.len() == base.len() + part.len()
}

/// The path has a verbatim prefix (`\\?\` on Windows): `?` is its third
/// character. Every verbatim prefix has one there.
pub open spec fn verbatim_mark(base: Seq<char>) -> bool {
    base.len() >= 3 && base[2] == '?'
}

/// `r` is `base` joined with `part`, as far as every platform agrees: unless
/// `base` has a verbatim prefix, `base`, at most one separator, then `part`.
/// (Onto a verbatim base Windows rebuilds the whole path from its components,
/// dropping `.` and `..`.)
pub open spec fn path_joined(r: Seq<char>, base: Seq<char>, part: Seq<char>) -> bool {
    !verbatim_mark(base) ==> path_joins(r, base, part)
}

/// `Path::join`. For a relative `part` (no root, drive or prefix) or an empty
/// one, the result is `base`, a separator unless `base` is empty or already
/// ends in one, then `part`, except onto a verbatim base, which Windows
/// normalises. The separator is `/` or `\` (the platform's); after a base
/// ending in `\` Unix adds one and Windows does not, and onto a bare drive
/// (`C:`) Windows adds none, so those cases are left open. What an absolute
/// or drive-relative `part` does depends on the platform and is unsaid.
#[verifier::external_body]
pub fn join_path(base: &str, part: &str) -> (r: String)
    ensures
        relative_part(part@) || part@.len() == 0 ==> path_joined(r@, base@, part@),
{
    std::path::Path::new(base).join(part).to_string_lossy().into_owned()
}

/// The path has a component before a later one that is neither `.` nor
/// `..`, with no prefix possible: no `\\`, no `:`, no leading `//`; and some
/// `/` is followed later by a character other than `/` and `.`.
pub open spec fn has_parent_dir(p: Seq<char>) -> bool {
    &&& forall|i: int| 0 <= i < p.len() ==> #[trigger] p[i] != '\\' && p[i] != ':'
    &&& !(p.len() >= 2 && p[0] == '/' && p[1] == '/')
    &&& exists|j: int, k: int| 0 <= j < k < p.len() && #[trigger] p[j] == '/' && #[trigger] p[k] != '/' && p[k] != '.'
}

/// A last component that every platform reads the same way: not empty, not
/// `.` or `..`, and with no separator or drive mark.
pub open spec fn plain_name(name: Seq<char>) -> bool {
    &&& name.len() > 0
    &&& name != "."@
    &&& name != ".."@
    &&& forall|i: int| 0 <= i < name.len() ==> #[trigger] name[i] != '/' && name[i] != '\\' && name[i] != ':'
}

/// A directory part that every platform keeps as it is when it cuts off the
/// last component: not empty, no `\\` or drive mark, no leading `//` (a
/// network prefix on Windows), and no trailing `/` or `/.` (which are trimmed).
pub open spec fn plain_dir(dir: Seq<char>) -> bool {
    &&& dir.len() > 0
    &&& forall|i: int| 0 <= i < dir.len() ==> #[trigger] dir[i] != '\\' && dir[i] != ':'
    &&& !(dir.len() >= 2 && dir[0] == '/' && dir[1] == '/')
    &&& dir.last() != '/'
    &&& !(dir.len() >= 2 && dir[dir.len() - 2] == '/' && dir.last() == '.')
}

/// `path` is `dir`, `/`, then `name`, both read the same way everywhere.
pub open spec fn splits_at(path: Seq<char>, dir: Seq<char>, name: Seq<char>) -> bool {
    path == dir + seq!['/'] + name && plain_dir(dir) && plain_name(name)
}

/// `Path::parent`: the path without its last component, which is a shorter
/// start of the path; none for an empty path or one that is only a root or
/// prefix, and a non-empty one for a path with a component before its last
/// (such as `a/b` or `/b`). Where a path `dir/name` of plain parts is cut is
/// the same everywhere: its parent is `dir`. Elsewhere where the path is cut
/// depends on the platform's separators, so the contract does not say where.
#[verifier::external_body]
pub fn parent_of(path: &str) -> (r: Option<String>)
    ensures
        path@.len() == 0 ==> r is None,
        r is Some ==> has_prefix(path@, r->0@) && r->0@.len() < path@.len(),
        has_parent_dir(path@) ==> r is Some && r->0@.len() > 0,
        forall|dir: Seq<char>, name: Seq<char>|
            #[trigger] splits_at(path@, dir, name) ==> r is Some && r->0@ == dir,
{
    std::path::Path::new(path).parent().map(|p| p.to_string_lossy().into_owned())
}

/// `Path::file_name`: the last component of the path, when it is a normal
/// one. It occurs in the path and is not empty; which characters end a
/// component is the platform's choice, so the contract says no more.
#[verifier::external_body]
pub fn file_name_of(path: &str) -> (r: Option<String>)
    ensures
        r is Some ==> r->0@.len() > 0 && crate::text::occurs_in(path@, r->0@),
        forall|dir: Seq<char>, name: Seq<char>|
            #[trigger] splits_at(path@, dir, name) ==> r is Some && r->0@ == name,
{
    std::path::Path::new(path).file_name().map(|n| n.to_string_lossy().into_owned())
}

/// `Path::is_absolute`: whether the path stands on its own. An empty path is
/// not absolute; what else is depends on the platform (a root on Unix, a
/// drive and root on Windows), so the contract says no more.
#[verifier::external_body]
pub fn is_absolute_path(path: &str) -> (r: bool)
    ensures
        path@.len() == 0 ==> !r,
{
    std::path::Path::new(path).is_absolute()
}

} // verus!
