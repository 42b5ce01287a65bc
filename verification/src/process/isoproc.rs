//! What the isolated process sets up: the writes that configure its user
//! namespace, the namespaces it unshares, and the steps that give it its own
//! root filesystem and procfs. The library decides these; the daemon performs them.

use crate::common::models::ProcessConfig;
use crate::oci::config::LinuxNamespaceType;
use crate::process::paths::{
    all_digits, decimal, decimal_value, int_text, is_digit, lemma_decimal_reads_back, proc_path,
    proc_path_spec, push_decimal,
};
use vstd::prelude::*;

verus! {

// ---------------------------------------------------------------------------
// User namespace
// ---------------------------------------------------------------------------

/// A write of `contents` to the file at `path`.
#[derive(Debug, Clone, PartialEq, Eq)]
pub struct ProcWrite {
    pub path: String,
    pub contents: String,
}

/// The text of a [`ProcWrite`].
pub struct ProcWriteView {
    pub path: Seq<char>,
    pub contents: Seq<char>,
}

impl View for ProcWrite {
    type V = ProcWriteView;

    open spec fn view(&self) -> ProcWriteView {
        ProcWriteView { path: self.path@, contents: self.contents@ }
    }
}

/// One line of a `uid_map` or `gid_map` file: the first id inside the
/// namespace, the first id outside it, and the length of the range.
pub open spec fn id_map_line_spec(inside: nat, outside: nat, count: nat) -> Seq<char> {
    decimal(inside) + " "@ + decimal(outside) + " "@ + decimal(count) + "\n"@
}

/// The line that maps root inside the namespace to user 1000 outside it.
pub open spec fn root_map_line() -> Seq<char> {
    "0 1000 1\n"@
}

/// The writes that set up the user namespace of process `pid`, in order:
/// the uid map, then `deny` to `setgroups`, then the gid map.
pub open spec fn userns_plan(pid: int) -> Seq<ProcWriteView> {
    seq![
        ProcWriteView { path: proc_path_spec(pid, "uid_map"@), contents: root_map_line() },
        ProcWriteView { path: proc_path_spec(pid, "setgroups"@), contents: "deny"@ },
        ProcWriteView { path: proc_path_spec(pid, "gid_map"@), contents: root_map_line() },
    ]
}

/// The line of an id map for the range of `count` ids that starts at
/// `inside` in the namespace and at `outside` outside it.
pub fn id_map_line(inside: u32, outside: u32, count: u32) -> (line: String)
    ensures
        line@ == id_map_line_spec(inside as nat, outside as nat, count as nat),
{
    let mut line = String::new();
    push_decimal(&mut line, inside as u64);
    line.append(" ");
    push_decimal(&mut line, outside as u64);
    line.append(" ");
    push_decimal(&mut line, count as u64);
    line.append("\n");
    assert(line@ =~= id_map_line_spec(inside as nat, outside as nat, count as nat));
    line
}

/// Whether `x` is a nonempty digit string that reads as `n`.
pub open spec fn reads_as(x: Seq<char>, n: nat) -> bool {
    x.len() >= 1 && all_digits(x) && decimal_value(x) == n
}

/// An id map line is three digit fields separated by single spaces and ended
/// by a newline, which read back as the inside id, the outside id and the
/// count, in that order.
pub proof fn lemma_id_map_line_fields(inside: nat, outside: nat, count: nat)
    ensures
        exists|x: Seq<char>, y: Seq<char>, z: Seq<char>|
            #![trigger reads_as(x, inside), reads_as(y, outside), reads_as(z, count)]
            reads_as(x, inside) && reads_as(y, outside) && reads_as(z, count) && id_map_line_spec(
                inside,
                outside,
                count,
            ) == x + " "@ + y + " "@ + z + "\n"@,
{
    lemma_decimal_reads_back(inside);
    lemma_decimal_reads_back(outside);
    lemma_decimal_reads_back(count);
    assert(reads_as(decimal(inside), inside));
    assert(reads_as(decimal(outside), outside));
    assert(reads_as(decimal(count), count));
}

proof fn lemma_split_before_non_digit(x1: Seq<char>, t1: Seq<char>, x2: Seq<char>, t2: Seq<char>)
    requires
        all_digits(x1),
        all_digits(x2),
        t1.len() >= 1,
        t2.len() >= 1,
        !is_digit(t1[0]),
        !is_digit(t2[0]),
        x1 + t1 == x2 + t2,
    ensures
        x1 == x2,
        t1 == t2,
{
    let s = x1 + t1;
    if x1.len() < x2.len() {
        assert(s[x1.len() as int] == t1[0]);
        assert((x2 + t2)[x1.len() as int] == x2[x1.len() as int]);
        assert(is_digit(x2[x1.len() as int]));
    } else if x2.len() < x1.len() {
        assert((x2 + t2)[x2.len() as int] == t2[0]);
        assert(s[x2.len() as int] == x1[x2.len() as int]);
        assert(is_digit(x1[x2.len() as int]));
    }
    assert(x1 =~= s.subrange(0, x1.len() as int));
    assert(x2 =~= (x2 + t2).subrange(0, x2.len() as int));
    assert(t1 =~= s.subrange(x1.len() as int, s.len() as int));
    assert(t2 =~= (x2 + t2).subrange(x2.len() as int, s.len() as int));
}

/// Two id map lines are equal only when they map the same range: equal
/// lines have equal inside ids, equal outside ids and equal counts.
pub proof fn lemma_id_map_line_injective(
    inside1: nat,
    outside1: nat,
    count1: nat,
    inside2: nat,
    outside2: nat,
    count2: nat,
)
    requires
        id_map_line_spec(inside1, outside1, count1) == id_map_line_spec(inside2, outside2, count2),
    ensures
        inside1 == inside2,
        outside1 == outside2,
        count1 == count2,
{
    reveal_strlit(" ");
    reveal_strlit("\n");
    lemma_decimal_reads_back(inside1);
    lemma_decimal_reads_back(outside1);
    lemma_decimal_reads_back(count1);
    lemma_decimal_reads_back(inside2);
    lemma_decimal_reads_back(outside2);
    lemma_decimal_reads_back(count2);
    let sp = " "@;
    let nl = "\n"@;
    let r1 = sp + decimal(outside1) + sp + decimal(count1) + nl;
    let r2 = sp + decimal(outside2) + sp + decimal(count2) + nl;
    assert(id_map_line_spec(inside1, outside1, count1) =~= decimal(inside1) + r1);
    assert(id_map_line_spec(inside2, outside2, count2) =~= decimal(inside2) + r2);
    assert(r1[0] == ' ');
    assert(r2[0] == ' ');
    lemma_split_before_non_digit(decimal(inside1), r1, decimal(inside2), r2);
    let q1 = sp + decimal(count1) + nl;
    let q2 = sp + decimal(count2) + nl;
    assert(r1.drop_first() =~= decimal(outside1) + q1);
    assert(r2.drop_first() =~= decimal(outside2) + q2);
    assert(q1[0] == ' ');
    assert(q2[0] == ' ');
    lemma_split_before_non_digit(decimal(outside1), q1, decimal(outside2), q2);
    assert(q1.drop_first() =~= decimal(count1) + nl);
    assert(q2.drop_first() =~= decimal(count2) + nl);
    lemma_split_before_non_digit(decimal(count1), nl, decimal(count2), nl);
}

proof fn lemma_root_map_line()
    ensures
        id_map_line_spec(0, 1000, 1) == root_map_line(),
{
    reveal_with_fuel(decimal, 5);
    reveal_strlit(" ");
    reveal_strlit("\n");
    reveal_strlit("0 1000 1\n");
    assert(decimal(1000) =~= seq!['1', '0', '0', '0']);
    assert(id_map_line_spec(0, 1000, 1) =~= root_map_line());
}

/// The writes that set up the user namespace of the process `pid`.
pub fn userns_writes(pid: i32) -> (writes: Vec<ProcWrite>)
    ensures
        writes@.map_values(|w: ProcWrite| w@) == userns_plan(pid as int),
        writes@.len() == 3,
        writes@[0].contents@ == "0 1000 1\n"@,
        writes@[1].contents@ == "deny"@,
        writes@[2].contents@ == "0 1000 1\n"@,
{
    proof { lemma_root_map_line(); }
    let mut writes: Vec<ProcWrite> = Vec::new();
    writes.push(ProcWrite { path: proc_path(pid, "uid_map"), contents: id_map_line(0, 1000, 1) });
    writes.push(
        ProcWrite { path: proc_path(pid, "setgroups"), contents: String::from_str("deny") },
    );
    writes.push(ProcWrite { path: proc_path(pid, "gid_map"), contents: id_map_line(0, 1000, 1) });
    assert(writes@.map_values(|w: ProcWrite| w@) =~= userns_plan(pid as int));
    assert(writes@[0]@ == userns_plan(pid as int)[0]);
    assert(writes@[1]@ == userns_plan(pid as int)[1]);
    assert(writes@[2]@ == userns_plan(pid as int)[2]);
    writes
}

/// Whatever the pid, the user namespace writes map root inside the
/// namespace to user 1000 outside it, for both users and groups, and deny
/// `setgroups`; only the `/proc/<pid>/` directory depends on the pid.
pub proof fn lemma_userns_plan_contents(pid: int)
    ensures
        userns_plan(pid).len() == 3,
        userns_plan(pid)[0].contents == "0 1000 1\n"@,
        userns_plan(pid)[1].contents == "deny"@,
        userns_plan(pid)[2].contents == "0 1000 1\n"@,
        userns_plan(pid)[0].path == "/proc/"@ + int_text(pid) + "/"@ + "uid_map"@,
        userns_plan(pid)[1].path == "/proc/"@ + int_text(pid) + "/"@ + "setgroups"@,
        userns_plan(pid)[2].path == "/proc/"@ + int_text(pid) + "/"@ + "gid_map"@,
{
}

/// The uid and gid maps each hold one line that maps the range of one id
/// starting at 0 inside the namespace to the range starting at 1000 outside.
pub proof fn lemma_userns_maps_root_to_1000(pid: int)
    ensures
        userns_plan(pid)[0].contents == id_map_line_spec(0, 1000, 1),
        userns_plan(pid)[2].contents == id_map_line_spec(0, 1000, 1),
{
    lemma_root_map_line();
}

/// The user namespace writes of two processes differ only in their paths:
/// what is written, and in which order, does not depend on the pid.
pub proof fn lemma_userns_contents_same_for_all_pids(a: int, b: int)
    ensures
        userns_plan(a).len() == userns_plan(b).len(),
        forall|k: int|
            0 <= k < userns_plan(a).len() ==> #[trigger] userns_plan(a)[k].contents
                == userns_plan(b)[k].contents,
{
    lemma_userns_plan_contents(a);
    lemma_userns_plan_contents(b);
}

proof fn lemma_entries_differ(pid: int, x: Seq<char>, y: Seq<char>)
    requires
        x.len() > 0,
        y.len() > 0,
        x[0] != y[0],
    ensures
        proc_path_spec(pid, x) != proc_path_spec(pid, y),
{
    let prefix = "/proc/"@ + crate::process::paths::int_text(pid) + "/"@;
    assert(proc_path_spec(pid, x) =~= prefix + x);
    assert(proc_path_spec(pid, y) =~= prefix + y);
    assert((prefix + x)[prefix.len() as int] == x[0]);
    assert((prefix + y)[prefix.len() as int] == y[0]);
}

/// `setgroups` is denied before the gid map is written: every write to
/// `gid_map` comes after a write of `deny` to `setgroups`.
pub proof fn lemma_setgroups_denied_before_gid_map(pid: int)
    ensures
        forall|j: int|
            0 <= j < userns_plan(pid).len() && #[trigger] userns_plan(pid)[j].path
                == proc_path_spec(pid, "gid_map"@) ==> exists|i: int|
                0 <= i < j && #[trigger] userns_plan(pid)[i].path == proc_path_spec(
                    pid,
                    "setgroups"@,
                ) && userns_plan(pid)[i].contents == "deny"@,
{
    reveal_strlit("uid_map");
    reveal_strlit("gid_map");
    reveal_strlit("setgroups");
    lemma_entries_differ(pid, "uid_map"@, "gid_map"@);
    lemma_entries_differ(pid, "setgroups"@, "gid_map"@);
    let plan = userns_plan(pid);
    assert forall|j: int|
        0 <= j < plan.len() && #[trigger] plan[j].path == proc_path_spec(pid, "gid_map"@)
        implies exists|i: int|
        0 <= i < j && #[trigger] plan[i].path == proc_path_spec(pid, "setgroups"@)
            && plan[i].contents == "deny"@ by {
        assert(j == 2);
        assert(plan[1].path == proc_path_spec(pid, "setgroups"@));
    }
}

// ---------------------------------------------------------------------------
// Namespaces and host name
// ---------------------------------------------------------------------------

/// The namespaces the child unshares first: a user namespace, in which it is
/// then mapped to root, and a pid namespace for its own children.
pub open spec fn child_namespaces_spec() -> Seq<LinuxNamespaceType> {
    seq![LinuxNamespaceType::User, LinuxNamespaceType::Pid]
}

/// The namespaces the grandchild unshares, once it is root in the user
/// namespace: mount, UTS and network.
pub open spec fn grandchild_namespaces_spec() -> Seq<LinuxNamespaceType> {
    seq![LinuxNamespaceType::Mount, LinuxNamespaceType::Uts, LinuxNamespaceType::Network]
}

/// The namespaces the child unshares right after it is forked.
pub fn child_namespaces() -> (kinds: Vec<LinuxNamespaceType>)
    ensures
        kinds@ == child_namespaces_spec(),
{
    let mut kinds = Vec::new();
    kinds.push(LinuxNamespaceType::User);
    kinds.push(LinuxNamespaceType::Pid);
    assert(kinds@ =~= child_namespaces_spec());
    kinds
}

/// The namespaces the grandchild unshares.
pub fn grandchild_namespaces() -> (kinds: Vec<LinuxNamespaceType>)
    ensures
        kinds@ == grandchild_namespaces_spec(),
{
    let mut kinds = Vec::new();
    kinds.push(LinuxNamespaceType::Mount);
    kinds.push(LinuxNamespaceType::Uts);
    kinds.push(LinuxNamespaceType::Network);
    assert(kinds@ =~= grandchild_namespaces_spec());
    kinds
}

/// The two unshare stages create each namespace once: the user namespace
/// comes first, no kind of namespace is created in both stages, and together
/// they create exactly the mount, pid, UTS, user and network namespaces
/// (no cgroup, IPC or time namespace).
pub proof fn lemma_unshare_stages_disjoint()
    ensures
        child_namespaces_spec()[0] == LinuxNamespaceType::User,
        forall|k: LinuxNamespaceType|
            child_namespaces_spec().contains(k) || grandchild_namespaces_spec().contains(k) <==> (k
                == LinuxNamespaceType::Mount || k == LinuxNamespaceType::Pid || k
                == LinuxNamespaceType::Uts || k == LinuxNamespaceType::User || k
                == LinuxNamespaceType::Network),
        forall|i: int, j: int|
            0 <= i < child_namespaces_spec().len() && 0 <= j < grandchild_namespaces_spec().len()
                ==> #[trigger] child_namespaces_spec()[i] != #[trigger] grandchild_namespaces_spec()[j],
{
    let c = child_namespaces_spec();
    let g = grandchild_namespaces_spec();
    assert forall|k: LinuxNamespaceType|
        c.contains(k) || g.contains(k) <==> (k == LinuxNamespaceType::Mount || k
            == LinuxNamespaceType::Pid || k == LinuxNamespaceType::Uts || k
            == LinuxNamespaceType::User || k == LinuxNamespaceType::Network) by {
        if k == LinuxNamespaceType::User {
            assert(c[0] == k);
        } else if k == LinuxNamespaceType::Pid {
            assert(c[1] == k);
        } else if k == LinuxNamespaceType::Mount {
            assert(g[0] == k);
        } else if k == LinuxNamespaceType::Uts {
            assert(g[1] == k);
        } else if k == LinuxNamespaceType::Network {
            assert(g[2] == k);
        }
    }
}

/// The host name of the isolated process's UTS namespace.
pub open spec fn uts_hostname_spec() -> Seq<char> {
    "isoproc"@
}

/// The host name that the isolated process gets in its UTS namespace.
pub fn uts_hostname() -> (name: &'static str)
    ensures
        name@ == uts_hostname_spec(),
{
    "isoproc"
}

// ---------------------------------------------------------------------------
// Mount namespace
// ---------------------------------------------------------------------------

/// The flags of a mount call that the mount namespace setup uses.
#[derive(Debug, Clone, Copy, PartialEq, Eq)]
pub struct MountFlags {
    /// `MS_BIND`
    pub bind: bool,
    /// `MS_REC`
    pub rec: bool,
    /// `MS_PRIVATE`
    pub private: bool,
}

/// One step of the mount namespace setup.
#[derive(Debug, Clone, PartialEq, Eq)]
pub enum MountStep {
    /// Set the permission bits of `path` to `mode`.
    SetMode { path: String, mode: u32 },
    /// Mount `source` of type `fstype` on `target`.
    Mount { source: Option<String>, target: String, fstype: Option<String>, flags: MountFlags },
    /// Remove the empty directory `path` if it exists.
    RemoveDirIfExists { path: String },
    /// Create the directory `path`.
    CreateDir { path: String },
    /// Make `new_root` the root and move the old root to `put_old`.
    PivotRoot { new_root: String, put_old: String },
    /// Change the working directory to `path`.
    ChangeDir { path: String },
    /// Unmount `target`, lazily when `detach` holds.
    Unmount { target: String, detach: bool },
    /// Remove the empty directory `path`.
    RemoveDir { path: String },
}

/// The text of a [`MountStep`].
pub enum MountStepView {
    SetMode { path: Seq<char>, mode: u32 },
    Mount {
        source: Option<Seq<char>>,
        target: Seq<char>,
        fstype: Option<Seq<char>>,
        flags: MountFlags,
    },
    RemoveDirIfExists { path: Seq<char> },
    CreateDir { path: Seq<char> },
    PivotRoot { new_root: Seq<char>, put_old: Seq<char> },
    ChangeDir { path: Seq<char> },
    Unmount { target: Seq<char>, detach: bool },
    RemoveDir { path: Seq<char> },
}

/// The text of an optional string.
pub open spec fn opt_text(s: Option<String>) -> Option<Seq<char>> {
    match s {
        Some(t) => Some(t@),
        None => None,
    }
}

impl View for MountStep {
    type V = MountStepView;

    open spec fn view(&self) -> MountStepView {
        match self {
            MountStep::SetMode { path, mode } => MountStepView::SetMode { path: path@, mode: *mode },
            MountStep::Mount { source, target, fstype, flags } => MountStepView::Mount {
                source: opt_text(*source),
                target: target@,
                fstype: opt_text(*fstype),
                flags: *flags,
            },
            MountStep::RemoveDirIfExists { path } => MountStepView::RemoveDirIfExists {
                path: path@,
            },
            MountStep::CreateDir { path } => MountStepView::CreateDir { path: path@ },
            MountStep::PivotRoot { new_root, put_old } => MountStepView::PivotRoot {
                new_root: new_root@,
                put_old: put_old@,
            },
            MountStep::ChangeDir { path } => MountStepView::ChangeDir { path: path@ },
            MountStep::Unmount { target, detach } => MountStepView::Unmount {
                target: target@,
                detach: *detach,
            },
            MountStep::RemoveDir { path } => MountStepView::RemoveDir { path: path@ },
        }
    }
}

/// The directory that becomes the root: `<context_dir>/rootfs`.
pub open spec fn new_root_spec(context_dir: Seq<char>) -> Seq<char> {
    context_dir + "/rootfs"@
}

/// Where the old root goes at the pivot: `<context_dir>/rootfs/.put_old`.
pub open spec fn put_old_spec(context_dir: Seq<char>) -> Seq<char> {
    new_root_spec(context_dir) + "/.put_old"@
}

/// The permission bits given to the directories the setup prepares (`0o777`).
pub open spec fn open_mode() -> u32 {
    0o777
}

/// The flags that make every mount under `/` private.
pub open spec fn private_rec_flags() -> MountFlags {
    MountFlags { bind: false, rec: true, private: true }
}

/// The flags of a bind mount.
pub open spec fn bind_flags() -> MountFlags {
    MountFlags { bind: true, rec: false, private: false }
}

/// No flags.
pub open spec fn no_flags() -> MountFlags {
    MountFlags { bind: false, rec: false, private: false }
}

/// The steps that give the process in `context_dir` its own root filesystem
/// and procfs, in order: open up the new root, stop mount propagation, bind
/// the new root onto itself, prepare `.put_old`, pivot, enter the new root,
/// mount a fresh procfs, then detach and remove the old root.
pub open spec fn mntns_plan_spec(context_dir: Seq<char>) -> Seq<MountStepView> {
    let new_root = new_root_spec(context_dir);
    let put_old = put_old_spec(context_dir);
    seq![
        MountStepView::SetMode { path: new_root, mode: open_mode() },
        MountStepView::Mount {
            source: None,
            target: "/"@,
            fstype: None,
            flags: private_rec_flags(),
        },
        MountStepView::Mount {
            source: Some(new_root),
            target: new_root,
            fstype: Some("ext4"@),
            flags: bind_flags(),
        },
        MountStepView::RemoveDirIfExists { path: put_old },
        MountStepView::CreateDir { path: put_old },
        MountStepView::SetMode { path: put_old, mode: open_mode() },
        MountStepView::PivotRoot { new_root: new_root, put_old: put_old },
        MountStepView::ChangeDir { path: "/"@ },
        MountStepView::RemoveDirIfExists { path: "/proc"@ },
        MountStepView::CreateDir { path: "/proc"@ },
        MountStepView::SetMode { path: "/proc"@, mode: open_mode() },
        MountStepView::Mount {
            source: Some("proc"@),
            target: "/proc"@,
            fstype: Some("proc"@),
            flags: no_flags(),
        },
        MountStepView::Unmount { target: "/.put_old"@, detach: true },
        MountStepView::RemoveDir { path: "/.put_old"@ },
    ]
}

/// The steps that set up the mount namespace of the process that `pcfg`
/// configures.
pub fn mntns_plan(pcfg: &ProcessConfig) -> (steps: Vec<MountStep>)
    ensures
        steps@.map_values(|s: MountStep| s@) == mntns_plan_spec(pcfg.context_dir@),
        steps@.len() == 14,
        steps@[2]@ == (MountStepView::Mount {
            source: Some(pcfg.context_dir@ + "/rootfs"@),
            target: pcfg.context_dir@ + "/rootfs"@,
            fstype: Some("ext4"@),
            flags: MountFlags { bind: true, rec: false, private: false },
        }),
        steps@[11]@ == (MountStepView::Mount {
            source: Some("proc"@),
            target: "/proc"@,
            fstype: Some("proc"@),
            flags: MountFlags { bind: false, rec: false, private: false },
        }),
{
    let new_root = String::from_str(pcfg.context_dir.as_str()).concat("/rootfs");
    let put_old = new_root.clone().concat("/.put_old");
    let mut steps: Vec<MountStep> = Vec::new();
    steps.push(MountStep::SetMode { path: new_root.clone(), mode: 0o777 });
    steps.push(
        MountStep::Mount {
            source: None,
            target: String::from_str("/"),
            fstype: None,
            flags: MountFlags { bind: false, rec: true, private: true },
        },
    );
    steps.push(
        MountStep::Mount {
            source: Some(new_root.clone()),
            target: new_root.clone(),
            fstype: Some(String::from_str("ext4")),
            flags: MountFlags { bind: true, rec: false, private: false },
        },
    );
    steps.push(MountStep::RemoveDirIfExists { path: put_old.clone() });
    steps.push(MountStep::CreateDir { path: put_old.clone() });
    steps.push(MountStep::SetMode { path: put_old.clone(), mode: 0o777 });
    steps.push(MountStep::PivotRoot { new_root: new_root, put_old: put_old });
    steps.push(MountStep::ChangeDir { path: String::from_str("/") });
    steps.push(MountStep::RemoveDirIfExists { path: String::from_str("/proc") });
    steps.push(MountStep::CreateDir { path: String::from_str("/proc") });
    steps.push(MountStep::SetMode { path: String::from_str("/proc"), mode: 0o777 });
    steps.push(
        MountStep::Mount {
            source: Some(String::from_str("proc")),
            target: String::from_str("/proc"),
            fstype: Some(String::from_str("proc")),
            flags: MountFlags { bind: false, rec: false, private: false },
        },
    );
    steps.push(MountStep::Unmount { target: String::from_str("/.put_old"), detach: true });
    steps.push(MountStep::RemoveDir { path: String::from_str("/.put_old") });
    assert(steps@.map_values(|s: MountStep| s@) =~= mntns_plan_spec(pcfg.context_dir@));
    assert(steps@[2]@ == mntns_plan_spec(pcfg.context_dir@)[2]);
    assert(steps@[11]@ == mntns_plan_spec(pcfg.context_dir@)[11]);
    steps
}

/// `.put_old` lies under the new root, as `pivot_root` demands, and the path
/// that is detached and removed after the pivot is that same directory seen
/// from the new root.
pub proof fn lemma_put_old_under_new_root(context_dir: Seq<char>)
    ensures
        put_old_spec(context_dir).subrange(0, new_root_spec(context_dir).len() as int)
            == new_root_spec(context_dir),
        put_old_spec(context_dir).subrange(
            new_root_spec(context_dir).len() as int,
            put_old_spec(context_dir).len() as int,
        ) == "/.put_old"@,
        mntns_plan_spec(context_dir)[6] == (MountStepView::PivotRoot {
            new_root: new_root_spec(context_dir),
            put_old: put_old_spec(context_dir),
        }),
        mntns_plan_spec(context_dir)[12] == (MountStepView::Unmount {
            target: "/.put_old"@,
            detach: true,
        }),
        mntns_plan_spec(context_dir)[13] == (MountStepView::RemoveDir { path: "/.put_old"@ }),
{
    let n = new_root_spec(context_dir);
    let p = put_old_spec(context_dir);
    assert(p.subrange(0, n.len() as int) =~= n);
    assert(p.subrange(n.len() as int, p.len() as int) =~= "/.put_old"@);
}

/// The order the setup keeps: `.put_old` is created before the pivot; procfs
/// is mounted only after the pivot and the move into the new root; the old
/// root is detached after that and removed last.
pub proof fn lemma_mntns_plan_order(context_dir: Seq<char>)
    ensures
        ({
            let plan = mntns_plan_spec(context_dir);
            &&& plan.len() == 14
            &&& plan[4] == MountStepView::CreateDir { path: put_old_spec(context_dir) }
            &&& plan[6] is PivotRoot
            &&& plan[7] == MountStepView::ChangeDir { path: "/"@ }
            &&& plan[11] is Mount && plan[11]->Mount_target == "/proc"@
            &&& plan[12] is Unmount
            &&& plan[13] is RemoveDir
            &&& forall|i: int| 0 <= i < plan.len() && #[trigger] plan[i] is PivotRoot ==> i == 6
            &&& forall|i: int| 0 <= i < plan.len() && #[trigger] plan[i] is Unmount ==> i == 12
        }),
{
}

/// Before the pivot, whatever the context directory: the new root
/// `<context_dir>/rootfs` is opened to mode `0o777`, every mount under `/` is
/// made private recursively, and the new root is bind-mounted onto itself
/// (type `ext4`, `MS_BIND` alone) so that it is a mount point; then
/// `<context_dir>/rootfs/.put_old` is removed if present, created, and opened
/// to mode `0o777`, and the root is pivoted onto the new root with the old
/// root put there.
pub proof fn lemma_mntns_prepares_new_root(context_dir: Seq<char>)
    ensures
        ({
            let plan = mntns_plan_spec(context_dir);
            let new_root = context_dir + "/rootfs"@;
            let put_old = context_dir + "/rootfs"@ + "/.put_old"@;
            &&& plan[0] == MountStepView::SetMode { path: new_root, mode: 0o777 }
            &&& plan[1] == MountStepView::Mount {
                source: None,
                target: "/"@,
                fstype: None,
                flags: MountFlags { bind: false, rec: true, private: true },
            }
            &&& plan[2] == MountStepView::Mount {
                source: Some(new_root),
                target: new_root,
                fstype: Some("ext4"@),
                flags: MountFlags { bind: true, rec: false, private: false },
            }
            &&& plan[3] == MountStepView::RemoveDirIfExists { path: put_old }
            &&& plan[4] == MountStepView::CreateDir { path: put_old }
            &&& plan[5] == MountStepView::SetMode { path: put_old, mode: 0o777 }
            &&& plan[6] == MountStepView::PivotRoot { new_root: new_root, put_old: put_old }
        }),
{
}

/// After the pivot, whatever the context directory: the process enters `/`,
/// replaces `/proc` with a fresh directory of mode `0o777`, mounts procfs
/// there (source `proc`, type `proc`, no flags), and detaches then removes
/// the old root at `/.put_old`. The plan mounts nothing else on `/proc`.
pub proof fn lemma_mntns_mounts_procfs(context_dir: Seq<char>)
    ensures
        ({
            let plan = mntns_plan_spec(context_dir);
            &&& plan.len() == 14
            &&& plan[7] == MountStepView::ChangeDir { path: "/"@ }
            &&& plan[8] == MountStepView::RemoveDirIfExists { path: "/proc"@ }
            &&& plan[9] == MountStepView::CreateDir { path: "/proc"@ }
            &&& plan[10] == MountStepView::SetMode { path: "/proc"@, mode: 0o777 }
            &&& plan[11] == MountStepView::Mount {
                source: Some("proc"@),
                target: "/proc"@,
                fstype: Some("proc"@),
                flags: MountFlags { bind: false, rec: false, private: false },
            }
            &&& plan[12] == MountStepView::Unmount { target: "/.put_old"@, detach: true }
            &&& plan[13] == MountStepView::RemoveDir { path: "/.put_old"@ }
            &&& forall|i: int|
                0 <= i < plan.len() && #[trigger] plan[i] is Mount && plan[i]->Mount_target
                    == "/proc"@ ==> i == 11
        }),
{
    reveal_strlit("/proc");
    reveal_strlit("/");
    let plan = mntns_plan_spec(context_dir);
    assert forall|i: int|
        0 <= i < plan.len() && #[trigger] plan[i] is Mount && plan[i]->Mount_target == "/proc"@
        implies i == 11 by {
        if i == 1 {
            assert(plan[1]->Mount_target.len() != "/proc"@.len());
        } else if i == 2 {
            let new_root = context_dir + "/rootfs"@;
            reveal_strlit("/rootfs");
            if new_root == "/proc"@ {
                assert(new_root.len() >= 7);
            }
        }
    }
}

/// The mount plans of two context directories differ only in the paths under
/// those directories: every step after the pivot is the same, and so are the
/// kind, mode, flags and filesystem type of every step.
pub proof fn lemma_mntns_plan_same_apart_from_paths(a: Seq<char>, b: Seq<char>)
    ensures
        ({
            let pa = mntns_plan_spec(a);
            let pb = mntns_plan_spec(b);
            &&& pa.len() == pb.len()
            &&& forall|i: int| 7 <= i < pa.len() ==> #[trigger] pa[i] == pb[i]
            &&& pa[1] == pb[1]
            &&& pa[0]->SetMode_mode == pb[0]->SetMode_mode
            &&& pa[5]->SetMode_mode == pb[5]->SetMode_mode
            &&& pa[2]->Mount_flags == pb[2]->Mount_flags
            &&& pa[2]->Mount_fstype == pb[2]->Mount_fstype
        }),
{
    lemma_mntns_prepares_new_root(a);
    lemma_mntns_prepares_new_root(b);
    lemma_mntns_mounts_procfs(a);
    lemma_mntns_mounts_procfs(b);
}

} // verus!
