//! Where the settings file lies: the default path, and the expansion of a
//! leading `~` into the user's home directory, which `shellexpand` does.

use vstd::prelude::*;

verus! {

/// The characters of the path that is used where none is given.
pub open spec fn default_path_text() -> Seq<char> {
    "~/.config/obs_hotkeys/config.yaml"@
}

/// A path opens with a tilde that stands alone or before a separator: the
/// only form that is ever expanded.
pub open spec fn has_home_prefix(path: Seq<char>) -> bool {
    &&& path.len() >= 1
    &&& path[0] == '~'
    &&& (path.len() == 1 || path[1] == '/' || path[1] == '\\')
}

/// `out` may come of expanding `path`: it is the path itself, or, where the
/// path has a home prefix, some directory followed by what stood behind the
/// tilde.
pub open spec fn may_expand_to(path: Seq<char>, out: Seq<char>) -> bool {
    out == path || (has_home_prefix(path) && exists|home: Seq<char>|
        out == home + path.subrange(1, path.len() as int))
}

/// Calls `shellexpand::tilde`. Believed: a path that does not open with `~`,
/// or with `~` before anything but a separator, comes back as it is; any
/// other comes back as it is (no home directory known) or with the tilde
/// replaced by the home directory. Which directory that is depends on the
/// machine, and nothing is claimed of it.
#[verifier::external_body]
pub(crate) fn tilde(path: &str) -> (r: String)
    ensures
        may_expand_to(path@, r@),
{
    shellexpand::tilde(path).into_owned()
}

/// The path of the settings file where none is given.
pub fn default_config_path() -> (r: String)
    ensures
        r@ == default_path_text(),
{
    "~/.config/obs_hotkeys/config.yaml".to_owned()
}

/// Expands a leading `~` of the given path. A path without a home prefix is
/// returned unchanged.
pub fn expand_config_path(path: &str) -> (r: String)
    ensures
        may_expand_to(path@, r@),
        !has_home_prefix(path@) ==> r@ == path@,
{
    tilde(path)
}

} // verus!
