//! The isolation controller's pure half: resolving the target command's path
//! inside the new root, planning the load-bearing order of the isolation
//! steps, staging the executable into the rootfs model, and propagating the
//! child's exit code. A host program interprets the plan with the privileged
//! OS calls (root switch, namespace isolation) that Verus cannot see.

use crate::errors::LaunchError;
use crate::rootfs::Rootfs;
use crate::rootfs::TarEntry;
use vstd::prelude::*;
use vstd::string::*;

verus! {

/// How many '/' characters the string begins with.
pub open spec fn leading_seps(s: Seq<char>) -> int
    decreases s.len(),
{
    if s.len() == 0 || s[0] != '/' {
        0
    } else {
        1 + leading_seps(s.skip(1))
    }
}

/// The command path as it stands inside the new root: the leading separators
/// stripped, so the path can never be reinterpreted as host-absolute.
pub open spec fn spec_resolved(command: Seq<char>) -> Seq<char> {
    command.skip(leading_seps(command))
}

/// `leading_seps` is pinned by its first non-separator position.
proof fn lemma_leading_seps_at(s: Seq<char>, i: int)
    requires
        0 <= i <= s.len(),
        forall|j: int| 0 <= j < i ==> s[j] == '/',
        i == s.len() || s[i] != '/',
    ensures
        leading_seps(s) == i,
    decreases s.len(),
{
    if i > 0 {
        lemma_leading_seps_at(s.skip(1), i - 1);
    }
}

/// Resolves the target command path against the new root: an absolute path
/// such as "/usr/bin/foo" becomes "usr/bin/foo", so it names a file inside
/// the assembled rootfs and never escapes to the host filesystem; a relative
/// path is kept as it is.
pub fn resolve_command_path(command: &str) -> (r: String)
    ensures
        r@ == spec_resolved(command@),
        r@.len() > 0 ==> r@[0] != '/',
        (command@.len() == 0 || command@[0] != '/') ==> r@ == command@,
{
    let len: usize = command.unicode_len();
    let mut i: usize = 0;
    while i < len && command.get_char(i) == '/'
        invariant
            0 <= i <= len,
            len == command@.len(),
            forall|j: int| 0 <= j < i ==> command@[j] == '/',
        decreases len - i,
    {
        i += 1;
    }
    proof {
        lemma_leading_seps_at(command@, i as int);
    }
    let rest = command.substring_char(i, len);
    proof {
        assert(rest@ =~= command@.skip(i as int));
    }
    rest.to_owned()
}

/// Whether the string holds a '/' anywhere.
pub open spec fn has_sep(s: Seq<char>) -> bool {
    exists|i: int| 0 <= i < s.len() && s[i] == '/'
}

/// The index of the last '/' in the string (-1 when there is none).
pub open spec fn last_slash(s: Seq<char>) -> int
    decreases s.len(),
{
    if s.len() == 0 {
        -1
    } else if s.last() == '/' {
        s.len() - 1
    } else {
        last_slash(s.drop_last())
    }
}

/// The directory part of a path: everything before the last '/'.
pub open spec fn spec_parent(s: Seq<char>) -> Seq<char> {
    s.take(last_slash(s))
}

/// `last_slash` is pinned by a '/' with none after it.
proof fn lemma_last_slash_at(s: Seq<char>, i: int)
    requires
        0 <= i < s.len(),
        s[i] == '/',
        forall|j: int| i < j < s.len() ==> s[j] != '/',
    ensures
        last_slash(s) == i,
    decreases s.len(),
{
    if i < s.len() - 1 {
        lemma_last_slash_at(s.drop_last(), i);
    }
}

/// The directory that must exist before a file can be created at `s`:
/// everything before the last '/'.
pub fn parent_dir(s: &str) -> (r: String)
    requires
        has_sep(s@),
    ensures
        r@ == spec_parent(s@),
{
    let len: usize = s.unicode_len();
    let mut idx: usize = len;
    while idx > 0
        invariant
            0 <= idx <= len,
            len == s@.len(),
            has_sep(s@),
            forall|j: int| idx <= j < len ==> s@[j] != '/',
        decreases idx,
    {
        idx = idx - 1;
        if s.get_char(idx) == '/' {
            proof {
                lemma_last_slash_at(s@, idx as int);
            }
            let parent = s.substring_char(0, idx);
            proof {
                assert(parent@ =~= spec_parent(s@));
            }
            return parent.to_owned();
        }
    }
    proof {
        assert(false);
    }
    vstd::pervasive::unreached()
}

/// The copy destination for the resolved command: the rootfs directory, a
/// separator, and the resolved path.
pub open spec fn spec_dest(rootfs_dir: Seq<char>, resolved: Seq<char>) -> Seq<char> {
    rootfs_dir + "/"@ + resolved
}

/// Joins the rootfs directory and the resolved command path.
pub fn rootfs_dest(rootfs_dir: &str, resolved: &str) -> (r: String)
    ensures
        r@ == spec_dest(rootfs_dir@, resolved@),
{
    let mut out = rootfs_dir.to_owned();
    out.append("/");
    out.append(resolved);
    proof {
        assert(out@ =~= spec_dest(rootfs_dir@, resolved@));
    }
    out
}

/// One step of the isolation sequence, interpreted by the host program.
#[derive(Debug)]
pub enum IsolationStep {
    /// Create a directory and any missing parents.
    CreateDirAll { path: String },
    /// Copy the host file at `src` to `dest`.
    CopyFile { src: String, dest: String },
    /// Switch the process's filesystem root to `dir`.
    SwitchRoot { dir: String },
    /// Reset the working directory to `dir`.
    SetWorkdir { dir: String },
    /// Create (or truncate) a file.
    CreateFile { path: String },
    /// Move the process into a fresh process-ID namespace.
    UnsharePidNamespace,
}

/// The launch plan for a rootfs directory and a command: stage the command
/// into the rootfs, switch root, reset the working directory, materialize the
/// minimal device area, and enter a fresh process-ID namespace — in exactly
/// that order.
pub open spec fn is_launch_plan(plan: Seq<IsolationStep>, rootfs_dir: Seq<char>, command: Seq<char>) -> bool {
    let dest = spec_dest(rootfs_dir, spec_resolved(command));
    &&& plan.len() == 7
    &&& (plan[0] matches IsolationStep::CreateDirAll { path } && path@ == spec_parent(dest))
    &&& (plan[1] matches IsolationStep::CopyFile { src, dest: d } && src@ == command && d@
        == dest)
    &&& (plan[2] matches IsolationStep::SwitchRoot { dir } && dir@ == rootfs_dir)
    &&& (plan[3] matches IsolationStep::SetWorkdir { dir } && dir@ == "/"@)
    &&& (plan[4] matches IsolationStep::CreateDirAll { path } && path@ == "/dev"@)
    &&& (plan[5] matches IsolationStep::CreateFile { path } && path@ == "/dev/null"@)
    &&& plan[6] is UnsharePidNamespace
}

/// Builds the isolation sequence. The order is load-bearing: reversing any
/// two steps either breaks the isolation or breaks the child's runnability,
/// so the plan is pinned step by step.
pub fn isolation_plan(rootfs_dir: &str, command: &str) -> (plan: Vec<IsolationStep>)
    ensures
        is_launch_plan(plan@, rootfs_dir@, command@),
{
    let resolved = resolve_command_path(command);
    let dest = rootfs_dest(rootfs_dir, resolved.as_str());
    proof {
        reveal_strlit("/");
        assert(dest@[rootfs_dir@.len() as int] == '/');
        assert(has_sep(dest@));
    }
    let parent = parent_dir(dest.as_str());
    let mut plan: Vec<IsolationStep> = Vec::new();
    plan.push(IsolationStep::CreateDirAll { path: parent });
    plan.push(IsolationStep::CopyFile { src: command.to_owned(), dest });
    plan.push(IsolationStep::SwitchRoot { dir: rootfs_dir.to_owned() });
    plan.push(IsolationStep::SetWorkdir { dir: "/".to_owned() });
    plan.push(IsolationStep::CreateDirAll { path: "/dev".to_owned() });
    plan.push(IsolationStep::CreateFile { path: "/dev/null".to_owned() });
    plan.push(IsolationStep::UnsharePidNamespace);
    plan
}

/// In every launch plan the root switch stands before the working-directory
/// reset to "/", which stands before the creation of the discard-output
/// device file: once the steps have run in order, both the working directory
/// and the device file were set up inside the new root, never on the host.
pub proof fn lemma_isolation_order(
    plan: Seq<IsolationStep>,
    rootfs_dir: Seq<char>,
    command: Seq<char>,
)
    requires
        is_launch_plan(plan, rootfs_dir, command),
    ensures
        exists|i: int, j: int, k: int|
            {
                &&& 0 <= i < j < k < plan.len()
                &&& #[trigger] plan[i] is SwitchRoot
                &&& (#[trigger] plan[j] matches IsolationStep::SetWorkdir { dir } && dir@ == "/"@)
                &&& (#[trigger] plan[k] matches IsolationStep::CreateFile { path } && path@
                    == "/dev/null"@)
            },
{
    assert({
        &&& 0 <= 2 < 3 < 5 < plan.len()
        &&& plan[2] is SwitchRoot
        &&& (plan[3] matches IsolationStep::SetWorkdir { dir } && dir@ == "/"@)
        &&& (plan[5] matches IsolationStep::CreateFile { path } && path@ == "/dev/null"@)
    });
}

/// The part of the host's state that the isolation steps change: the current
/// working directory, whether the root switch has happened yet, and the paths
/// created after it — paths created before the switch land on the host side
/// and are not in this set.
pub struct HostEffect {
    pub workdir: Seq<char>,
    pub root_switched: bool,
    pub created_in_root: Set<Seq<char>>,
}

/// What one isolation step does to the host state.
pub open spec fn step_effect(s: HostEffect, step: IsolationStep) -> HostEffect {
    match step {
        IsolationStep::CreateDirAll { path } => if s.root_switched {
            HostEffect { created_in_root: s.created_in_root.insert(path@), ..s }
        } else {
            s
        },
        IsolationStep::CopyFile { src: _, dest } => if s.root_switched {
            HostEffect { created_in_root: s.created_in_root.insert(dest@), ..s }
        } else {
            s
        },
        IsolationStep::SwitchRoot { dir: _ } => HostEffect { root_switched: true, ..s },
        IsolationStep::SetWorkdir { dir } => HostEffect { workdir: dir@, ..s },
        IsolationStep::CreateFile { path } => if s.root_switched {
            HostEffect { created_in_root: s.created_in_root.insert(path@), ..s }
        } else {
            s
        },
        IsolationStep::UnsharePidNamespace => s,
    }
}

/// The host state after the steps have run in order.
pub open spec fn run_steps(s: HostEffect, plan: Seq<IsolationStep>) -> HostEffect
    decreases plan.len(),
{
    if plan.len() == 0 {
        s
    } else {
        step_effect(run_steps(s, plan.drop_last()), plan.last())
    }
}

/// Running one more step runs the prefix, then that step.
proof fn lemma_run_take_succ(s: HostEffect, plan: Seq<IsolationStep>, i: int)
    requires
        0 <= i < plan.len(),
    ensures
        run_steps(s, plan.take(i + 1)) == step_effect(run_steps(s, plan.take(i)), plan[i]),
{
    assert(plan.take(i + 1).drop_last() =~= plan.take(i));
    assert(plan.take(i + 1).last() == plan[i]);
}

/// After the isolation sequence completes, the working directory equals the
/// new root's "/", and the device directory and the discard-output device
/// file were created after the root switch — inside the new root, whatever
/// the host state was before.
pub proof fn lemma_isolation_outcome(
    s0: HostEffect,
    plan: Seq<IsolationStep>,
    rootfs_dir: Seq<char>,
    command: Seq<char>,
)
    requires
        is_launch_plan(plan, rootfs_dir, command),
    ensures
        run_steps(s0, plan).workdir == "/"@,
        run_steps(s0, plan).root_switched,
        run_steps(s0, plan).created_in_root.contains("/dev"@),
        run_steps(s0, plan).created_in_root.contains("/dev/null"@),
{
    assert(plan.take(0) =~= Seq::<IsolationStep>::empty());
    lemma_run_take_succ(s0, plan, 0);
    lemma_run_take_succ(s0, plan, 1);
    lemma_run_take_succ(s0, plan, 2);
    lemma_run_take_succ(s0, plan, 3);
    lemma_run_take_succ(s0, plan, 4);
    lemma_run_take_succ(s0, plan, 5);
    lemma_run_take_succ(s0, plan, 6);
    assert(plan.take(7) =~= plan);
    assert(run_steps(s0, plan.take(3)).root_switched);
    assert(run_steps(s0, plan.take(4)).workdir == "/"@);
    assert(run_steps(s0, plan.take(5)).created_in_root.contains("/dev"@));
    assert(run_steps(s0, plan.take(6)).created_in_root.contains("/dev/null"@));
}

/// Stages the target executable inside the rootfs: the host file's bytes are
/// stored at the resolved path. A host file that could not be read is the
/// copy failure that aborts the whole launch — the rootfs is left unchanged
/// and nothing is ever executed from a path that was not written.
pub fn install_command(
    rootfs: &mut Rootfs,
    dest_path: String,
    contents: Option<Vec<u8>>,
) -> (r: Result<(), LaunchError>)
    ensures
        contents matches Some(b) ==> r is Ok && final(rootfs)@ == old(rootfs)@.insert(
            dest_path@,
            b@,
        ),
        contents is None ==> r == Err::<(), LaunchError>(LaunchError::FileCopyError)
            && final(rootfs)@ == old(rootfs)@,
{
    match contents {
        Some(data) => {
            rootfs.apply_entry(TarEntry { path: dest_path, data });
            Ok(())
        },
        None => Err(LaunchError::FileCopyError),
    }
}

/// The launcher's own exit code: the child's code when it exited with one,
/// and success when the child's status carries no code.
pub fn exit_code_for(status: Option<i32>) -> (r: i32)
    ensures
        status matches Some(code) ==> r == code,
        status is None ==> r == 0,
{
    match status {
        Some(code) => code,
        None => 0,
    }
}

} // verus!
