//! Derivation of the log file path from a resolved configuration directory.

use vstd::prelude::*;

verus! {

/// The fixed, well-known name of the log file inside the configuration
/// directory.
pub open spec fn log_file_name_spec() -> Seq<char> {
    "app.log"@
}

/// The log file path for a given configuration directory: the directory,
/// a path separator, and the fixed file name.
pub open spec fn log_path_spec(dir: Seq<char>) -> Seq<char> {
    dir + "/app.log"@
}

/// The fixed log file name, as a string.
pub fn log_file_name() -> (s: &'static str)
    ensures
        s@ == log_file_name_spec(),
{
    "app.log"
}

/// Derive the log file path for a resolved configuration directory.
pub fn log_path_for(dir: &str) -> (p: String)
    ensures
        p@ == log_path_spec(dir@),
{
    let mut p = dir.to_owned();
    p.append("/app.log");
    p
}

/// The derived path is the directory followed by a separator and the fixed
/// file name.
pub proof fn lemma_log_path_shape(dir: Seq<char>)
    ensures
        log_path_spec(dir) == dir + "/"@ + log_file_name_spec(),
{
    reveal_strlit("/app.log");
    reveal_strlit("/");
    reveal_strlit("app.log");
    assert(log_path_spec(dir) =~= dir + "/"@ + log_file_name_spec());
}

} // verus!
