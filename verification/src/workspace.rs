//! Job workspaces: one directory per job below a shared scratch root.

use vstd::prelude::*;
use vstd::string::*;

verus! {

/// The separator between the components of a path.
pub open spec fn separator() -> char {
    '/'
}

/// The path of the entry `name` inside the directory `base`.
pub open spec fn path_join(base: Seq<char>, name: Seq<char>) -> Seq<char> {
    base + seq![separator()] + name
}

/// Whether `path` names something below the directory `dir`.
pub open spec fn is_within(path: Seq<char>, dir: Seq<char>) -> bool {
    (dir + seq![separator()]).is_prefix_of(path)
}

/// Builds the path of the entry `name` inside the directory `base`.
pub fn join(base: &str, name: &str) -> (path: String)
    ensures
        path@ == path_join(base@, name@),
{
    proof {
        reveal_strlit("/");
    }
    let mut path = base.to_owned();
    path.append("/");
    path.append(name);
    assert("/"@ =~= seq![separator()]);
    path
}

/// Hands out the workspace directories, all of them directly below one
/// scratch root that is fixed at construction.
#[derive(Debug, PartialEq, Eq)]
pub struct WorkspaceManager {
    pub scratch_root: String,
}

impl View for WorkspaceManager {
    type V = Seq<char>;

    /// The scratch root.
    open spec fn view(&self) -> Seq<char> {
        self.scratch_root@
    }
}

impl Clone for WorkspaceManager {
    fn clone(&self) -> (copy: WorkspaceManager)
        ensures
            copy@ == self@,
    {
        WorkspaceManager { scratch_root: self.scratch_root.clone() }
    }
}

impl WorkspaceManager {
    /// A manager for the workspaces below `scratch_root`.
    pub fn new(scratch_root: String) -> (manager: WorkspaceManager)
        ensures
            manager@ == scratch_root@,
    {
        WorkspaceManager { scratch_root }
    }

    /// The workspace directory that belongs to the job `job_id`: the entry
    /// of that name in the scratch root.
    pub fn path_for(&self, job_id: &str) -> (path: String)
        ensures
            path@ == path_join(self@, job_id@),
    {
        join(self.scratch_root.as_str(), job_id)
    }
}

/// Two entries of one directory have the same path only if they have the
/// same name.
pub proof fn lemma_path_join_injective(base: Seq<char>, a: Seq<char>, b: Seq<char>)
    requires
        path_join(base, a) == path_join(base, b),
    ensures
        a == b,
{
    let prefix = base + seq![separator()];
    assert(path_join(base, a).subrange(prefix.len() as int, path_join(base, a).len() as int) =~= a);
    assert(path_join(base, b).subrange(prefix.len() as int, path_join(base, b).len() as int) =~= b);
}

} // verus!
