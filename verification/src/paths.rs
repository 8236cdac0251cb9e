//! Where the agent keeps its keys, its pin store, and its audit log.
//!
//! The layout is decided here; the service creates the directories.

use vstd::prelude::*;
use std::path::PathBuf;

verus! {

/// Sealed private key material, one file per keystore label.
pub const KEYS_SUBDIR: &'static str = "keys";
/// Append-only JSONL audit files, one per UTC day.
pub const AUDIT_SUBDIR: &'static str = "audit";
/// Diagnostic logs. Distinct from the audit directory, which is a security
/// record the operator may not delete; these are ordinary troubleshooting
/// output, there because a Windows service has no console.
pub const LOGS_SUBDIR: &'static str = "logs";
/// Device id, relay credentials, and the pinned-peer list.
pub const STATE_FILE: &'static str = "state.json";

/// A filesystem path; its contents are opaque here.
#[verifier::external_type_specification]
#[verifier::external_body]
pub struct ExPathBuf(PathBuf);

/// The path `Path::join` builds from `root` and the relative `child`.
pub uninterp spec fn path_joined(root: PathBuf, child: Seq<char>) -> PathBuf;

/// Whether `c` is one plain path component on every platform: not empty, not
/// `.` or `..`, and free of separators and of the drive-prefix colon.
pub open spec fn plain_component(c: Seq<char>) -> bool {
    &&& c.len() > 0
    &&& c != "."@
    &&& c != ".."@
    &&& forall|i: int| 0 <= i < c.len() ==> #[trigger] c[i] != '/' && c[i] != '\\' && c[i] != ':'
}

/// A name with no separator, no colon, and more than two characters (so
/// neither `.` nor `..`) is a plain component.
proof fn lemma_plain(c: Seq<char>)
    requires
        c.len() > 2,
        forall|i: int| 0 <= i < c.len() ==> c[i] != '/' && c[i] != '\\' && c[i] != ':',
    ensures
        plain_component(c),
{
    reveal_strlit(".");
    reveal_strlit("..");
    assert(c != "."@);
    assert(c != ".."@);
}

/// `Path::join`: `root` with `child` adjoined. The result depends on the two
/// arguments alone. Paths compare by components, and adjoining a plain
/// component makes it the last one, so two different plain components give
/// two different paths under the same root; beyond that, what the path is
/// is not stated here.
#[verifier::external_body]
pub(crate) fn join_path(root: &PathBuf, child: &str) -> (p: PathBuf)
    ensures
        p == path_joined(*root, child@),
        plain_component(child@) ==> forall|other: Seq<char>| plain_component(other) && other != child@
            ==> #[trigger] path_joined(*root, other) != p,
{
    root.join(child)
}

/// The agent's data subtrees, all under one root.
#[derive(Debug)]
pub struct DataLayout {
    pub root: PathBuf,
    pub keys: PathBuf,
    pub audit: PathBuf,
    pub logs: PathBuf,
    pub state: PathBuf,
}

impl DataLayout {
    /// The layout under `root`: each artefact at its fixed name directly
    /// beneath it.
    pub fn under(root: PathBuf) -> (l: DataLayout)
        ensures
            l.root == root,
            l.keys == path_joined(root, KEYS_SUBDIR@),
            l.audit == path_joined(root, AUDIT_SUBDIR@),
            l.logs == path_joined(root, LOGS_SUBDIR@),
            l.state == path_joined(root, STATE_FILE@),
            l.logs != l.audit,
            l.keys != l.audit && l.keys != l.logs && l.keys != l.state,
            l.state != l.audit && l.state != l.logs,
    {
        proof {
            reveal_strlit("keys");
            reveal_strlit("audit");
            reveal_strlit("logs");
            reveal_strlit("state.json");
            reveal_strlit(".");
            reveal_strlit("..");
            lemma_plain(KEYS_SUBDIR@);
            lemma_plain(AUDIT_SUBDIR@);
            lemma_plain(LOGS_SUBDIR@);
            lemma_plain(STATE_FILE@);
            assert(KEYS_SUBDIR@ != AUDIT_SUBDIR@ && KEYS_SUBDIR@ != STATE_FILE@ && LOGS_SUBDIR@ != AUDIT_SUBDIR@);
            assert(KEYS_SUBDIR@[0] != LOGS_SUBDIR@[0]);
            assert(STATE_FILE@ != LOGS_SUBDIR@ && STATE_FILE@ != AUDIT_SUBDIR@);
        }
        let keys = join_path(&root, KEYS_SUBDIR);
        let audit = join_path(&root, AUDIT_SUBDIR);
        let logs = join_path(&root, LOGS_SUBDIR);
        let state = join_path(&root, STATE_FILE);
        DataLayout { root, keys, audit, logs, state }
    }
}

/// Where the agent keeps its state off Windows, given the environment:
/// `OSPREY_DATA_DIR` when set, else `$XDG_STATE_HOME/osprey`, else
/// `$HOME/.local/state/osprey`; `None` when none of the three is set.
///
/// On Windows the root is fixed at `%ProgramData%\Osprey` with no override:
/// the directory ACL is the only boundary around the sealed keys, and a
/// variable that could redirect the keystore would dissolve it.
pub fn data_dir_from(explicit: Option<PathBuf>, state_home: Option<PathBuf>, home: Option<PathBuf>) -> (r: Option<PathBuf>)
    ensures
        r == match explicit {
            Some(dir) => Some(dir),
            None => match state_home {
                Some(dir) => Some(path_joined(dir, "osprey"@)),
                None => match home {
                    Some(dir) => Some(path_joined(dir, ".local/state/osprey"@)),
                    None => None::<PathBuf>,
                },
            },
        },
{
    match explicit {
        Some(dir) => Some(dir),
        None => match state_home {
            Some(dir) => Some(join_path(&dir, "osprey")),
            None => match home {
                Some(dir) => Some(join_path(&dir, ".local/state/osprey")),
                None => None,
            },
        },
    }
}

/// The Windows data root: `Osprey` under `%ProgramData%`; `None` when that
/// variable is not set.
pub fn windows_data_dir(program_data: Option<PathBuf>) -> (r: Option<PathBuf>)
    ensures
        r == match program_data {
            Some(dir) => Some(path_joined(dir, "Osprey"@)),
            None => None::<PathBuf>,
        },
{
    match program_data {
        Some(dir) => Some(join_path(&dir, "Osprey")),
        None => None,
    }
}

} // verus!
