//! The sandbox plan: every step that the child process takes, in order, to
//! close itself in before it runs a package's code.
//!
//! Nothing here touches the kernel. A plan is a list of plain values; the
//! driver forks, carries the steps out one by one in the child, and hands the
//! child's wait status to [`parent_verdict`].

use vstd::prelude::*;
use crate::manifest::{Manifest, ManifestView, Sandbox, SandboxView};
use crate::text::{followed_by, contains_nul, decimal, decimal_string, has_nul, join, join_with,
    strip_leading, trim_leading_slashes, views};

verus! {

/// Where the installed packages live.
pub const STORE_PATH: &'static str = "/usr/lib/HackerOS/hpm/store/";

/// Landlock access rights, with the bit that the kernel gives each.
pub const ACCESS_EXECUTE: u64 = 0x1;

pub const ACCESS_WRITE_FILE: u64 = 0x2;

pub const ACCESS_READ_FILE: u64 = 0x4;

pub const ACCESS_READ_DIR: u64 = 0x8;

pub const ACCESS_REMOVE_DIR: u64 = 0x10;

pub const ACCESS_REMOVE_FILE: u64 = 0x20;

pub const ACCESS_MAKE_CHAR: u64 = 0x40;

pub const ACCESS_MAKE_DIR: u64 = 0x80;

pub const ACCESS_MAKE_REG: u64 = 0x100;

pub const ACCESS_MAKE_SOCK: u64 = 0x200;

pub const ACCESS_MAKE_FIFO: u64 = 0x400;

pub const ACCESS_MAKE_BLOCK: u64 = 0x800;

pub const ACCESS_MAKE_SYM: u64 = 0x1000;

/// Reading files and listing directories.
pub const ACCESS_READ: u64 = 0xc;

/// Reading, listing and executing.
pub const ACCESS_READ_EXEC: u64 = 0xd;

/// Every right of the first version of the Landlock interface.
pub const ACCESS_ALL: u64 = 0x1fff;

/// The rights in [`ACCESS_ALL`] that change what is on disk.
pub const ACCESS_MUTATING: u64 = 0x1ff2;

/// The error number that a denied system call returns (`EPERM`).
pub const DENIED_ERRNO: i32 = 1;

/// CPU seconds a sandboxed process may use.
pub const LIMIT_CPU_SECONDS: u64 = 60;

/// Bytes of address space a sandboxed process may map: 512 MiB.
pub const LIMIT_ADDRESS_SPACE: u64 = 536870912;

/// Processes a sandboxed user may have.
pub const LIMIT_PROCESSES: u64 = 1024;

/// The namespaces that the child leaves.
#[derive(Clone, Copy, Debug, PartialEq, Eq)]
pub struct Namespaces {
    pub user: bool,
    pub mount: bool,
    pub uts: bool,
    pub pid: bool,
    pub cgroup: bool,
    pub net: bool,
    pub ipc: bool,
}

/// How a mount is made.
#[derive(Clone, Copy, Debug, PartialEq, Eq)]
pub struct MountFlags {
    pub bind: bool,
    pub recursive: bool,
    pub read_only: bool,
    pub private: bool,
}

/// A resource whose use is capped.
#[derive(Clone, Copy, Debug, PartialEq, Eq)]
pub enum Limit {
    Cpu,
    AddressSpace,
    Processes,
}

/// A system call that sandboxed code may make.
#[derive(Clone, Copy, Debug, PartialEq, Eq)]
pub enum Syscall {
    Read,
    Write,
    Open,
    Openat,
    Close,
    Exit,
    ExitGroup,
    Mmap,
    Brk,
    Futex,
    Fstat,
    Newfstatat,
}

/// One Landlock rule: the rights in `access` on everything beneath `path`.
#[derive(Clone, Debug, PartialEq, Eq)]
pub struct PathRule {
    pub path: String,
    pub access: u64,
    /// Whether the rule is left out when `path` does not exist.
    pub if_exists: bool,
}

/// The mathematical value of a [`PathRule`].
pub struct PathRuleView {
    pub path: Seq<char>,
    pub access: u64,
    pub if_exists: bool,
}

impl View for PathRule {
    type V = PathRuleView;

    open spec fn view(&self) -> PathRuleView {
        PathRuleView { path: self.path@, access: self.access, if_exists: self.if_exists }
    }
}

/// The views of a vector of rules.
pub open spec fn rule_views(v: Seq<PathRule>) -> Seq<PathRuleView> {
    v.map_values(|r: PathRule| r@)
}

/// One thing that the child does.
#[derive(Clone, Debug, PartialEq, Eq)]
pub enum Step {
    /// Leave the given namespaces.
    Unshare { namespaces: Namespaces },
    /// Set the host name.
    SetHostname { name: String },
    /// Mount `source` on `target`.
    Mount { source: Option<String>, target: String, fstype: Option<String>, flags: MountFlags },
    /// Create or truncate `path` and write `content` to it.
    WriteFile { path: String, content: String },
    /// Create the directory `path` and every missing ancestor.
    MakeDirs { path: String },
    /// Create the directory that holds `path`, and every missing ancestor.
    MakeParentDirs { path: String },
    /// Create a character device node.
    MakeCharDevice { path: String, major: u64, minor: u64, mode: u32 },
    /// Set an environment variable of the child.
    SetEnv { name: String, value: String },
    /// Change the working directory.
    Chdir { path: String },
    /// Make `new_root` the root of the mount namespace and move the old root to `put_old`.
    PivotRoot { new_root: String, put_old: String },
    /// Unmount `target`, lazily where `detach` is set.
    Unmount { target: String, detach: bool },
    /// Forbid the process and its children to gain privileges.
    NoNewPrivs,
    /// Cap a resource, with the same soft and hard limit.
    SetLimit { limit: Limit, amount: u64 },
    /// Restrict the process to the given rules; `handled` are the rights that
    /// are denied wherever no rule grants them.
    Landlock { handled: u64, rules: Vec<PathRule> },
    /// Load a system call filter: the calls in `allowed` pass, every other
    /// call fails with `errno`.
    Seccomp { errno: i32, allowed: Vec<Syscall> },
    /// Replace the process by `program`, with the arguments `argv` (the
    /// program's own name first) and the environment `env`.
    Exec { program: String, argv: Vec<String>, env: Vec<String> },
}

/// The mathematical value of a [`Step`].
pub enum StepView {
    Unshare { namespaces: Namespaces },
    SetHostname { name: Seq<char> },
    Mount {
        source: Option<Seq<char>>,
        target: Seq<char>,
        fstype: Option<Seq<char>>,
        flags: MountFlags,
    },
    WriteFile { path: Seq<char>, content: Seq<char> },
    MakeDirs { path: Seq<char> },
    MakeParentDirs { path: Seq<char> },
    MakeCharDevice { path: Seq<char>, major: u64, minor: u64, mode: u32 },
    SetEnv { name: Seq<char>, value: Seq<char> },
    Chdir { path: Seq<char> },
    PivotRoot { new_root: Seq<char>, put_old: Seq<char> },
    Unmount { target: Seq<char>, detach: bool },
    NoNewPrivs,
    SetLimit { limit: Limit, amount: u64 },
    Landlock { handled: u64, rules: Seq<PathRuleView> },
    Seccomp { errno: i32, allowed: Seq<Syscall> },
    Exec { program: Seq<char>, argv: Seq<Seq<char>>, env: Seq<Seq<char>> },
}

/// The view of an optional string.
pub open spec fn option_view(o: Option<String>) -> Option<Seq<char>> {
    match o {
        Some(s) => Some(s@),
        None => None,
    }
}

impl View for Step {
    type V = StepView;

    open spec fn view(&self) -> StepView {
        match *self {
            Step::Unshare { namespaces } => StepView::Unshare { namespaces },
            Step::SetHostname { name } => StepView::SetHostname { name: name@ },
            Step::Mount { source, target, fstype, flags } => StepView::Mount {
                source: option_view(source),
                target: target@,
                fstype: option_view(fstype),
                flags,
            },
            Step::WriteFile { path, content } => StepView::WriteFile {
                path: path@,
                content: content@,
            },
            Step::MakeDirs { path } => StepView::MakeDirs { path: path@ },
            Step::MakeParentDirs { path } => StepView::MakeParentDirs { path: path@ },
            Step::MakeCharDevice { path, major, minor, mode } => StepView::MakeCharDevice {
                path: path@,
                major,
                minor,
                mode,
            },
            Step::SetEnv { name, value } => StepView::SetEnv { name: name@, value: value@ },
            Step::Chdir { path } => StepView::Chdir { path: path@ },
            Step::PivotRoot { new_root, put_old } => StepView::PivotRoot {
                new_root: new_root@,
                put_old: put_old@,
            },
            Step::Unmount { target, detach } => StepView::Unmount { target: target@, detach },
            Step::NoNewPrivs => StepView::NoNewPrivs,
            Step::SetLimit { limit, amount } => StepView::SetLimit { limit, amount },
            Step::Landlock { handled, rules } => StepView::Landlock {
                handled,
                rules: rule_views(rules@),
            },
            Step::Seccomp { errno, allowed } => StepView::Seccomp { errno, allowed: allowed@ },
            Step::Exec { program, argv, env } => StepView::Exec {
                program: program@,
                argv: views(argv@),
                env: views(env@),
            },
        }
    }
}

/// A step together with the conditions under which it is taken.
#[derive(Clone, Debug, PartialEq, Eq)]
pub struct PlannedStep {
    pub step: Step,
    /// Where set, the step is skipped unless this path exists when its turn comes.
    pub when_exists: Option<String>,
    /// Whether the plan goes on when the step fails.
    pub may_fail: bool,
}

/// The mathematical value of a [`PlannedStep`].
pub struct PlannedStepView {
    pub step: StepView,
    pub when_exists: Option<Seq<char>>,
    pub may_fail: bool,
}

impl View for PlannedStep {
    type V = PlannedStepView;

    open spec fn view(&self) -> PlannedStepView {
        PlannedStepView {
            step: self.step@,
            when_exists: option_view(self.when_exists),
            may_fail: self.may_fail,
        }
    }
}

/// The views of a vector of planned steps.
pub open spec fn plan_view(v: Seq<PlannedStep>) -> Seq<PlannedStepView> {
    v.map_values(|s: PlannedStep| s@)
}

/// A step that is always taken and must succeed.
pub open spec fn required(step: StepView) -> PlannedStepView {
    PlannedStepView { step, when_exists: None, may_fail: false }
}

/// A step that is taken only where `path` exists, and must then succeed.
pub open spec fn guarded(step: StepView, path: Seq<char>) -> PlannedStepView {
    PlannedStepView { step, when_exists: Some(path), may_fail: false }
}

/// A step that is always taken and whose failure is passed over.
pub open spec fn tolerated(step: StepView) -> PlannedStepView {
    PlannedStepView { step, when_exists: None, may_fail: true }
}

fn push_required(plan: &mut Vec<PlannedStep>, step: Step)
    ensures
        plan_view(final(plan)@) == plan_view(old(plan)@).push(required(step@)),
{
    plan.push(PlannedStep { step, when_exists: None, may_fail: false });
    assert(plan_view(plan@) =~= plan_view(old(plan)@).push(required(step@)));
}

fn push_guarded(plan: &mut Vec<PlannedStep>, step: Step, path: &str)
    ensures
        plan_view(final(plan)@) == plan_view(old(plan)@).push(guarded(step@, path@)),
{
    plan.push(PlannedStep { step, when_exists: Some(path.to_string()), may_fail: false });
    assert(plan_view(plan@) =~= plan_view(old(plan)@).push(guarded(step@, path@)));
}

fn push_tolerated(plan: &mut Vec<PlannedStep>, step: Step)
    ensures
        plan_view(final(plan)@) == plan_view(old(plan)@).push(tolerated(step@)),
{
    plan.push(PlannedStep { step, when_exists: None, may_fail: true });
    assert(plan_view(plan@) =~= plan_view(old(plan)@).push(tolerated(step@)));
}

fn append_plan(plan: &mut Vec<PlannedStep>, more: Vec<PlannedStep>)
    ensures
        plan_view(final(plan)@) == plan_view(old(plan)@) + plan_view(more@),
{
    let ghost added = more@;
    let mut more = more;
    plan.append(&mut more);
    assert(plan_view(plan@) =~= plan_view(old(plan)@) + plan_view(added));
}

/// A bind mount that takes submounts along and cannot be written through.
pub open spec fn bind_read_only() -> MountFlags {
    MountFlags { bind: true, recursive: true, read_only: true, private: false }
}

/// A bind mount that takes submounts along and can be written through.
pub open spec fn bind_read_write() -> MountFlags {
    MountFlags { bind: true, recursive: true, read_only: false, private: false }
}

/// A fresh mount of a file system of its own.
pub open spec fn fresh_mount() -> MountFlags {
    MountFlags { bind: false, recursive: false, read_only: false, private: false }
}

/// A change of propagation: the whole tree becomes private.
pub open spec fn private_recursive() -> MountFlags {
    MountFlags { bind: false, recursive: true, read_only: false, private: true }
}

/// The host's system directories that every sandbox sees, read-only.
pub open spec fn system_dirs() -> Seq<Seq<char>> {
    seq!["/usr"@, "/lib"@, "/lib64"@, "/bin"@, "/etc"@]
}

/// The host's system directories that every sandbox sees, read-only.
pub fn system_dir_list() -> (dirs: Vec<String>)
    ensures
        views(dirs@) == system_dirs(),
{
    let mut dirs: Vec<String> = Vec::new();
    dirs.push("/usr".to_string());
    dirs.push("/lib".to_string());
    dirs.push("/lib64".to_string());
    dirs.push("/bin".to_string());
    dirs.push("/etc".to_string());
    assert(views(dirs@) =~= system_dirs());
    dirs
}

/// Where the host path `p` appears beneath the new root.
pub open spec fn under(root: Seq<char>, p: Seq<char>) -> Seq<char> {
    root + "/"@ + strip_leading(p, '/')
}

/// Where the host path `p` appears beneath the new root.
pub fn path_under(root: &str, p: &str) -> (r: String)
    ensures
        r@ == under(root@, p@),
{
    let mut r = followed_by(root, "/");
    let rest = trim_leading_slashes(p);
    r.append(rest.as_str());
    r
}

/// The namespaces that a policy asks the child to leave: always user, mount,
/// UTS, PID and cgroup; the network unless the policy shares it; IPC unless
/// the package needs the display server.
pub open spec fn plan_namespaces(sb: SandboxView) -> Namespaces {
    Namespaces {
        user: true,
        mount: true,
        uts: true,
        pid: true,
        cgroup: true,
        net: !sb.network,
        ipc: !sb.gui,
    }
}

/// The three writes that map the host user to root inside the namespace. The
/// kernel takes the group map only after `setgroups` has been denied.
pub open spec fn user_mapping_plan(uid: nat, gid: nat) -> Seq<PlannedStepView> {
    seq![
        required(
            StepView::WriteFile {
                path: "/proc/self/uid_map"@,
                content: "0 "@ + decimal(uid) + " 1\n"@,
            },
        ),
        required(StepView::WriteFile { path: "/proc/self/setgroups"@, content: "deny\n"@ }),
        required(
            StepView::WriteFile {
                path: "/proc/self/gid_map"@,
                content: "0 "@ + decimal(gid) + " 1\n"@,
            },
        ),
    ]
}

/// Plans the user mapping.
pub fn setup_user_mapping(uid: u32, gid: u32) -> (plan: Vec<PlannedStep>)
    ensures
        plan_view(plan@) == user_mapping_plan(uid as nat, gid as nat),
{
    let mut plan: Vec<PlannedStep> = Vec::new();
    let mut uid_line = followed_by("0 ", decimal_string(uid as u64).as_str());
    uid_line.append(" 1\n");
    let mut gid_line = followed_by("0 ", decimal_string(gid as u64).as_str());
    gid_line.append(" 1\n");
    push_required(
        &mut plan,
        Step::WriteFile { path: "/proc/self/uid_map".to_string(), content: uid_line },
    );
    push_required(
        &mut plan,
        Step::WriteFile { path: "/proc/self/setgroups".to_string(), content: "deny\n".to_string() },
    );
    push_required(
        &mut plan,
        Step::WriteFile { path: "/proc/self/gid_map".to_string(), content: gid_line },
    );
    assert(plan_view(plan@) =~= user_mapping_plan(uid as nat, gid as nat));
    plan
}

/// For each directory that exists on the host: make its place beneath the
/// new root and bind it there, read-only.
pub open spec fn system_binds(root: Seq<char>, dirs: Seq<Seq<char>>) -> Seq<PlannedStepView>
    decreases dirs.len(),
{
    if dirs.len() == 0 {
        Seq::empty()
    } else {
        let d = dirs.last();
        system_binds(root, dirs.drop_last()) + seq![
            guarded(StepView::MakeDirs { path: under(root, d) }, d),
            guarded(
                StepView::Mount {
                    source: Some(d),
                    target: under(root, d),
                    fstype: None,
                    flags: bind_read_only(),
                },
                d,
            ),
        ]
    }
}

/// For each path that exists on the host: make the directory that will hold
/// it beneath the new root and bind it there, read-write.
pub open spec fn extra_binds(root: Seq<char>, paths: Seq<Seq<char>>) -> Seq<PlannedStepView>
    decreases paths.len(),
{
    if paths.len() == 0 {
        Seq::empty()
    } else {
        let p = paths.last();
        extra_binds(root, paths.drop_last()) + seq![
            guarded(StepView::MakeParentDirs { path: under(root, p) }, p),
            guarded(
                StepView::Mount {
                    source: Some(p),
                    target: under(root, p),
                    fstype: None,
                    flags: bind_read_write(),
                },
                p,
            ),
        ]
    }
}

/// The package's tree at `/app` and a scratch `/tmp`.
pub open spec fn package_mounts(root: Seq<char>, path: Seq<char>) -> Seq<PlannedStepView> {
    seq![
        required(StepView::MakeDirs { path: root + "/app"@ }),
        required(
            StepView::Mount {
                source: Some(path),
                target: root + "/app"@,
                fstype: None,
                flags: bind_read_write(),
            },
        ),
        required(StepView::MakeDirs { path: root + "/tmp"@ }),
        required(
            StepView::Mount {
                source: Some("tmpfs"@),
                target: root + "/tmp"@,
                fstype: Some("tmpfs"@),
                flags: fresh_mount(),
            },
        ),
    ]
}

/// The display server's socket directory, and the variable that names the display.
pub open spec fn gui_steps(root: Seq<char>, display: Option<Seq<char>>) -> Seq<PlannedStepView> {
    seq![
        required(StepView::MakeDirs { path: root + "/tmp/.X11-unix"@ }),
        guarded(
            StepView::Mount {
                source: Some("/tmp/.X11-unix"@),
                target: root + "/tmp/.X11-unix"@,
                fstype: None,
                flags: bind_read_write(),
            },
            "/tmp/.X11-unix"@,
        ),
    ] + match display {
        Some(d) => seq![required(StepView::SetEnv { name: "DISPLAY"@, value: d })],
        None => Seq::empty(),
    }
}

/// The mode of every device node: read and write for all.
pub const DEVICE_MODE: u32 = 0o666;

/// A character device node beneath the new root's `/dev`; a node that cannot
/// be made is passed over.
pub open spec fn device_node(root: Seq<char>, name: Seq<char>, major: u64, minor: u64)
    -> PlannedStepView {
    tolerated(
        StepView::MakeCharDevice { path: root + "/dev/"@ + name, major, minor, mode: DEVICE_MODE },
    )
}

/// A `/dev` of the sandbox's own with the five usual nodes.
pub open spec fn dev_steps(root: Seq<char>) -> Seq<PlannedStepView> {
    seq![
        required(StepView::MakeDirs { path: root + "/dev"@ }),
        required(
            StepView::Mount {
                source: Some("tmpfs"@),
                target: root + "/dev"@,
                fstype: Some("tmpfs"@),
                flags: fresh_mount(),
            },
        ),
        device_node(root, "null"@, 1, 3),
        device_node(root, "zero"@, 1, 5),
        device_node(root, "random"@, 1, 8),
        device_node(root, "urandom"@, 1, 9),
        device_node(root, "tty"@, 5, 0),
    ]
}

/// Fresh `proc` and `sysfs`.
pub open spec fn kernel_mounts(root: Seq<char>) -> Seq<PlannedStepView> {
    seq![
        required(StepView::MakeDirs { path: root + "/proc"@ }),
        required(
            StepView::Mount {
                source: Some("proc"@),
                target: root + "/proc"@,
                fstype: Some("proc"@),
                flags: fresh_mount(),
            },
        ),
        required(StepView::MakeDirs { path: root + "/sys"@ }),
        required(
            StepView::Mount {
                source: Some("sysfs"@),
                target: root + "/sys"@,
                fstype: Some("sysfs"@),
                flags: fresh_mount(),
            },
        ),
    ]
}

/// Everything that is mounted beneath the new root, in order: the system
/// directories, the package and its scratch space, the display and the
/// devices where the policy grants them, the extra host paths, and the
/// kernel's own file systems.
pub open spec fn mount_plan(
    root: Seq<char>,
    path: Seq<char>,
    sb: SandboxView,
    display: Option<Seq<char>>,
) -> Seq<PlannedStepView> {
    system_binds(root, system_dirs()) + package_mounts(root, path) + (if sb.gui {
        gui_steps(root, display)
    } else {
        Seq::empty()
    }) + (if sb.dev {
        dev_steps(root)
    } else {
        Seq::empty()
    }) + extra_binds(root, sb.filesystem) + kernel_mounts(root)
}

fn plan_system_binds(root: &str) -> (plan: Vec<PlannedStep>)
    ensures
        plan_view(plan@) == system_binds(root@, system_dirs()),
{
    let dirs = system_dir_list();
    let mut plan: Vec<PlannedStep> = Vec::new();
    let mut i: usize = 0;
    while i < dirs.len()
        invariant
            i <= dirs.len(),
            plan_view(plan@) == system_binds(root@, views(dirs@).take(i as int)),
        decreases dirs.len() - i,
    {
        proof {
            assert(views(dirs@).take(i + 1).drop_last() =~= views(dirs@).take(i as int));
        }
        let d = dirs[i].as_str();
        push_guarded(&mut plan, Step::MakeDirs { path: path_under(root, d) }, d);
        push_guarded(
            &mut plan,
            Step::Mount {
                source: Some(d.to_string()),
                target: path_under(root, d),
                fstype: None,
                flags: MountFlags { bind: true, recursive: true, read_only: true, private: false },
            },
            d,
        );
        i += 1;
    }
    assert(views(dirs@).take(dirs@.len() as int) =~= views(dirs@));
    plan
}

fn plan_extra_binds(root: &str, paths: &Vec<String>) -> (plan: Vec<PlannedStep>)
    ensures
        plan_view(plan@) == extra_binds(root@, views(paths@)),
{
    let mut plan: Vec<PlannedStep> = Vec::new();
    let mut i: usize = 0;
    while i < paths.len()
        invariant
            i <= paths.len(),
            plan_view(plan@) == extra_binds(root@, views(paths@).take(i as int)),
        decreases paths.len() - i,
    {
        proof {
            assert(views(paths@).take(i + 1).drop_last() =~= views(paths@).take(i as int));
        }
        let p = paths[i].as_str();
        push_guarded(&mut plan, Step::MakeParentDirs { path: path_under(root, p) }, p);
        push_guarded(
            &mut plan,
            Step::Mount {
                source: Some(p.to_string()),
                target: path_under(root, p),
                fstype: None,
                flags: MountFlags { bind: true, recursive: true, read_only: false, private: false },
            },
            p,
        );
        i += 1;
    }
    assert(views(paths@).take(paths@.len() as int) =~= views(paths@));
    plan
}

fn plan_package_mounts(root: &str, path: &str) -> (plan: Vec<PlannedStep>)
    ensures
        plan_view(plan@) == package_mounts(root@, path@),
{
    let mut plan: Vec<PlannedStep> = Vec::new();
    push_required(&mut plan, Step::MakeDirs { path: followed_by(root, "/app") });
    push_required(
        &mut plan,
        Step::Mount {
            source: Some(path.to_string()),
            target: followed_by(root, "/app"),
            fstype: None,
            flags: MountFlags { bind: true, recursive: true, read_only: false, private: false },
        },
    );
    push_required(&mut plan, Step::MakeDirs { path: followed_by(root, "/tmp") });
    push_required(
        &mut plan,
        Step::Mount {
            source: Some("tmpfs".to_string()),
            target: followed_by(root, "/tmp"),
            fstype: Some("tmpfs".to_string()),
            flags: MountFlags { bind: false, recursive: false, read_only: false, private: false },
        },
    );
    assert(plan_view(plan@) =~= package_mounts(root@, path@));
    plan
}

fn plan_gui(root: &str, display: Option<&String>) -> (plan: Vec<PlannedStep>)
    ensures
        plan_view(plan@) == gui_steps(
            root@,
            match display {
                Some(d) => Some(d@),
                None => None,
            },
        ),
{
    let mut plan: Vec<PlannedStep> = Vec::new();
    push_required(&mut plan, Step::MakeDirs { path: followed_by(root, "/tmp/.X11-unix") });
    push_guarded(
        &mut plan,
        Step::Mount {
            source: Some("/tmp/.X11-unix".to_string()),
            target: followed_by(root, "/tmp/.X11-unix"),
            fstype: None,
            flags: MountFlags { bind: true, recursive: true, read_only: false, private: false },
        },
        "/tmp/.X11-unix",
    );
    match display {
        Some(d) => {
            push_required(
                &mut plan,
                Step::SetEnv { name: "DISPLAY".to_string(), value: d.clone() },
            );
            assert(plan_view(plan@) =~= gui_steps(root@, Some(d@)));
        },
        None => {
            assert(plan_view(plan@) =~= gui_steps(root@, None));
        },
    }
    plan
}

fn push_device(plan: &mut Vec<PlannedStep>, root: &str, name: &str, major: u64, minor: u64)
    ensures
        plan_view(final(plan)@) == plan_view(old(plan)@).push(
            device_node(root@, name@, major, minor),
        ),
{
    let mut path = followed_by(root, "/dev/");
    path.append(name);
    push_tolerated(plan, Step::MakeCharDevice { path, major, minor, mode: DEVICE_MODE });
}

fn plan_dev(root: &str) -> (plan: Vec<PlannedStep>)
    ensures
        plan_view(plan@) == dev_steps(root@),
{
    let mut plan: Vec<PlannedStep> = Vec::new();
    push_required(&mut plan, Step::MakeDirs { path: followed_by(root, "/dev") });
    push_required(
        &mut plan,
        Step::Mount {
            source: Some("tmpfs".to_string()),
            target: followed_by(root, "/dev"),
            fstype: Some("tmpfs".to_string()),
            flags: MountFlags { bind: false, recursive: false, read_only: false, private: false },
        },
    );
    push_device(&mut plan, root, "null", 1, 3);
    push_device(&mut plan, root, "zero", 1, 5);
    push_device(&mut plan, root, "random", 1, 8);
    push_device(&mut plan, root, "urandom", 1, 9);
    push_device(&mut plan, root, "tty", 5, 0);
    assert(plan_view(plan@) =~= dev_steps(root@));
    plan
}

fn plan_kernel_mounts(root: &str) -> (plan: Vec<PlannedStep>)
    ensures
        plan_view(plan@) == kernel_mounts(root@),
{
    let mut plan: Vec<PlannedStep> = Vec::new();
    push_required(&mut plan, Step::MakeDirs { path: followed_by(root, "/proc") });
    push_required(
        &mut plan,
        Step::Mount {
            source: Some("proc".to_string()),
            target: followed_by(root, "/proc"),
            fstype: Some("proc".to_string()),
            flags: MountFlags { bind: false, recursive: false, read_only: false, private: false },
        },
    );
    push_required(&mut plan, Step::MakeDirs { path: followed_by(root, "/sys") });
    push_required(
        &mut plan,
        Step::Mount {
            source: Some("sysfs".to_string()),
            target: followed_by(root, "/sys"),
            fstype: Some("sysfs".to_string()),
            flags: MountFlags { bind: false, recursive: false, read_only: false, private: false },
        },
    );
    assert(plan_view(plan@) =~= kernel_mounts(root@));
    plan
}

/// Plans everything that is mounted beneath `new_root` for the package at
/// `path` under the policy `sandbox`. `display` is the host's `DISPLAY`, where set.
pub fn setup_mounts(new_root: &str, path: &str, sandbox: &Sandbox, display: Option<&String>) -> (plan:
    Vec<PlannedStep>)
    ensures
        plan_view(plan@) == mount_plan(
            new_root@,
            path@,
            sandbox@,
            match display {
                Some(d) => Some(d@),
                None => None,
            },
        ),
{
    let mut plan = plan_system_binds(new_root);
    append_plan(&mut plan, plan_package_mounts(new_root, path));
    if sandbox.gui {
        append_plan(&mut plan, plan_gui(new_root, display));
    }
    if sandbox.dev {
        append_plan(&mut plan, plan_dev(new_root));
    }
    append_plan(&mut plan, plan_extra_binds(new_root, &sandbox.filesystem));
    append_plan(&mut plan, plan_kernel_mounts(new_root));
    assert(plan_view(plan@) =~= mount_plan(
        new_root@,
        path@,
        sandbox@,
        match display {
            Some(d) => Some(d@),
            None => None,
        },
    ));
    plan
}

/// Entering the new root: go there, make room for the old root, swap the two,
/// and let go of the old one.
pub open spec fn pivot_plan(root: Seq<char>) -> Seq<PlannedStepView> {
    seq![
        required(StepView::Chdir { path: root }),
        required(StepView::MakeDirs { path: "old_root"@ }),
        required(StepView::PivotRoot { new_root: "."@, put_old: "old_root"@ }),
        required(StepView::Chdir { path: "/"@ }),
        required(StepView::Unmount { target: "/old_root"@, detach: true }),
    ]
}

/// Plans the change of root.
pub fn pivot_and_chdir(new_root: &str) -> (plan: Vec<PlannedStep>)
    ensures
        plan_view(plan@) == pivot_plan(new_root@),
{
    let mut plan: Vec<PlannedStep> = Vec::new();
    push_required(&mut plan, Step::Chdir { path: new_root.to_string() });
    push_required(&mut plan, Step::MakeDirs { path: "old_root".to_string() });
    push_required(
        &mut plan,
        Step::PivotRoot { new_root: ".".to_string(), put_old: "old_root".to_string() },
    );
    push_required(&mut plan, Step::Chdir { path: "/".to_string() });
    push_required(&mut plan, Step::Unmount { target: "/old_root".to_string(), detach: true });
    assert(plan_view(plan@) =~= pivot_plan(new_root@));
    plan
}

/// The three caps on what sandboxed code may use.
pub open spec fn limits_plan() -> Seq<PlannedStepView> {
    seq![
        required(StepView::SetLimit { limit: Limit::Cpu, amount: LIMIT_CPU_SECONDS }),
        required(StepView::SetLimit { limit: Limit::AddressSpace, amount: LIMIT_ADDRESS_SPACE }),
        required(StepView::SetLimit { limit: Limit::Processes, amount: LIMIT_PROCESSES }),
    ]
}

/// Plans the resource limits.
pub fn set_resource_limits() -> (plan: Vec<PlannedStep>)
    ensures
        plan_view(plan@) == limits_plan(),
{
    let mut plan: Vec<PlannedStep> = Vec::new();
    push_required(&mut plan, Step::SetLimit { limit: Limit::Cpu, amount: LIMIT_CPU_SECONDS });
    push_required(
        &mut plan,
        Step::SetLimit { limit: Limit::AddressSpace, amount: LIMIT_ADDRESS_SPACE },
    );
    push_required(&mut plan, Step::SetLimit { limit: Limit::Processes, amount: LIMIT_PROCESSES });
    assert(plan_view(plan@) =~= limits_plan());
    plan
}

/// One rule with the same rights for each path, left out where the path is missing.
pub open spec fn rules_for(paths: Seq<Seq<char>>, access: u64) -> Seq<PathRuleView> {
    paths.map_values(|p: Seq<char>| PathRuleView { path: p, access, if_exists: true })
}

/// The Landlock rules of a policy, in order: the system directories may be
/// read and executed, `/proc` and `/sys` read; the package's tree and its
/// scratch space are open, so is `/dev` where the policy grants devices, and
/// so is each extra host path that exists.
pub open spec fn landlock_rules(sb: SandboxView) -> Seq<PathRuleView> {
    rules_for(system_dirs(), ACCESS_READ_EXEC) + seq![
        PathRuleView { path: "/proc"@, access: ACCESS_READ, if_exists: false },
        PathRuleView { path: "/sys"@, access: ACCESS_READ, if_exists: false },
        PathRuleView { path: "/app"@, access: ACCESS_ALL, if_exists: false },
        PathRuleView { path: "/tmp"@, access: ACCESS_ALL, if_exists: false },
    ] + (if sb.dev {
        seq![PathRuleView { path: "/dev"@, access: ACCESS_ALL, if_exists: false }]
    } else {
        Seq::empty()
    }) + rules_for(sb.filesystem, ACCESS_ALL)
}

/// The Landlock step of a policy: every right of the interface's first
/// version is handled, and so denied wherever no rule grants it.
pub open spec fn landlock_step(sb: SandboxView) -> StepView {
    StepView::Landlock { handled: ACCESS_ALL, rules: landlock_rules(sb) }
}

fn push_rules(rules: &mut Vec<PathRule>, paths: &Vec<String>, access: u64)
    ensures
        rule_views(final(rules)@) == rule_views(old(rules)@) + rules_for(views(paths@), access),
{
    let mut i: usize = 0;
    while i < paths.len()
        invariant
            i <= paths.len(),
            rule_views(rules@) == rule_views(old(rules)@) + rules_for(
                views(paths@).take(i as int),
                access,
            ),
        decreases paths.len() - i,
    {
        let ghost before = rule_views(rules@);
        rules.push(PathRule { path: paths[i].clone(), access, if_exists: true });
        assert(rule_views(rules@) =~= before.push(
            PathRuleView { path: paths@[i as int]@, access, if_exists: true },
        ));
        assert(rules_for(views(paths@).take(i + 1), access) =~= rules_for(
            views(paths@).take(i as int),
            access,
        ).push(PathRuleView { path: paths@[i as int]@, access, if_exists: true }));
        i += 1;
    }
    assert(views(paths@).take(paths@.len() as int) =~= views(paths@));
}

fn push_rule(rules: &mut Vec<PathRule>, path: &str, access: u64)
    ensures
        rule_views(final(rules)@) == rule_views(old(rules)@).push(
            PathRuleView { path: path@, access, if_exists: false },
        ),
{
    rules.push(PathRule { path: path.to_string(), access, if_exists: false });
    assert(rule_views(rules@) =~= rule_views(old(rules)@).push(
        PathRuleView { path: path@, access, if_exists: false },
    ));
}

/// Plans the Landlock restriction for a manifest's policy.
pub fn setup_landlock(manifest: &Manifest) -> (step: Step)
    ensures
        step@ == landlock_step(manifest@.sandbox),
{
    let mut rules: Vec<PathRule> = Vec::new();
    let dirs = system_dir_list();
    push_rules(&mut rules, &dirs, ACCESS_READ_EXEC);
    push_rule(&mut rules, "/proc", ACCESS_READ);
    push_rule(&mut rules, "/sys", ACCESS_READ);
    push_rule(&mut rules, "/app", ACCESS_ALL);
    push_rule(&mut rules, "/tmp", ACCESS_ALL);
    if manifest.sandbox.dev {
        push_rule(&mut rules, "/dev", ACCESS_ALL);
    }
    push_rules(&mut rules, &manifest.sandbox.filesystem, ACCESS_ALL);
    assert(rule_views(rules@) =~= landlock_rules(manifest@.sandbox));
    Step::Landlock { handled: ACCESS_ALL, rules }
}

/// The system calls that sandboxed code may make.
pub open spec fn allowed_syscalls() -> Seq<Syscall> {
    seq![
        Syscall::Read,
        Syscall::Write,
        Syscall::Open,
        Syscall::Openat,
        Syscall::Close,
        Syscall::Exit,
        Syscall::ExitGroup,
        Syscall::Mmap,
        Syscall::Brk,
        Syscall::Futex,
        Syscall::Fstat,
        Syscall::Newfstatat,
    ]
}

/// The system call filter: the allowed calls pass, every other fails with `EPERM`.
pub open spec fn seccomp_step() -> StepView {
    StepView::Seccomp { errno: DENIED_ERRNO, allowed: allowed_syscalls() }
}

/// Plans the system call filter.
pub fn setup_seccomp() -> (step: Step)
    ensures
        step@ == seccomp_step(),
{
    let mut allowed: Vec<Syscall> = Vec::new();
    allowed.push(Syscall::Read);
    allowed.push(Syscall::Write);
    allowed.push(Syscall::Open);
    allowed.push(Syscall::Openat);
    allowed.push(Syscall::Close);
    allowed.push(Syscall::Exit);
    allowed.push(Syscall::ExitGroup);
    allowed.push(Syscall::Mmap);
    allowed.push(Syscall::Brk);
    allowed.push(Syscall::Futex);
    allowed.push(Syscall::Fstat);
    allowed.push(Syscall::Newfstatat);
    assert(allowed@ =~= allowed_syscalls());
    Step::Seccomp { errno: DENIED_ERRNO, allowed }
}

/// Why a sandbox could not be planned or did not succeed.
#[derive(Clone, Debug, PartialEq, Eq)]
pub enum SandboxError {
    /// An argument of the command to run holds a NUL character.
    NulInArgument,
    /// The child ended with a status other than success; `diagnostic` is what
    /// it wrote about its failure.
    ChildFailed { code: i32, diagnostic: String },
}

/// What a sandbox error tells the user.
pub open spec fn sandbox_message(e: SandboxError) -> Seq<char> {
    match e {
        SandboxError::NulInArgument => "Command argument holds a NUL character"@,
        SandboxError::ChildFailed { code, diagnostic } => "Sandbox child failed: "@ + diagnostic@,
    }
}

impl SandboxError {
    /// What this error tells the user.
    pub fn message(&self) -> (text: String)
        ensures
            text@ == sandbox_message(*self),
    {
        match self {
            SandboxError::NulInArgument => "Command argument holds a NUL character".to_string(),
            SandboxError::ChildFailed { code, diagnostic } => followed_by(
                "Sandbox child failed: ",
                diagnostic.as_str(),
            ),
        }
    }
}

/// The shell command that installs a package: the manifest's fragments,
/// each run only if the one before succeeded, or a plain message where the
/// manifest has none.
pub open spec fn install_command(commands: Seq<Seq<char>>) -> Seq<char> {
    if commands.len() == 0 {
        "echo 'Isolated install complete'"@
    } else {
        join_with(commands, " && "@)
    }
}

/// The path of a package's binary inside the sandbox.
pub open spec fn binary_path(bin: Seq<char>) -> Seq<char> {
    "/app/"@ + bin
}

/// The arguments of the command that the sandbox ends in, the program's own
/// name first.
pub open spec fn exec_argv(
    is_install: bool,
    commands: Seq<Seq<char>>,
    bin: Seq<char>,
    extra_args: Seq<Seq<char>>,
) -> Seq<Seq<char>> {
    if is_install {
        seq!["/bin/sh"@, "-c"@, install_command(commands)]
    } else {
        seq![binary_path(bin)] + extra_args
    }
}

/// The command that the sandbox ends in: the shell on the install command,
/// or the package's binary on the caller's arguments. Its environment is empty.
pub open spec fn exec_step(
    is_install: bool,
    commands: Seq<Seq<char>>,
    bin: Seq<char>,
    extra_args: Seq<Seq<char>>,
) -> StepView {
    StepView::Exec {
        program: if is_install {
            "/bin/sh"@
        } else {
            binary_path(bin)
        },
        argv: exec_argv(is_install, commands, bin, extra_args),
        env: Seq::empty(),
    }
}

/// Whether one of the strings holds a NUL character.
pub open spec fn any_has_nul(args: Seq<Seq<char>>) -> bool {
    exists|i: int| 0 <= i < args.len() && has_nul(#[trigger] args[i])
}

/// Whether one of the strings holds a NUL character.
fn any_contains_nul(args: &Vec<String>) -> (r: bool)
    ensures
        r == any_has_nul(views(args@)),
{
    let mut i: usize = 0;
    while i < args.len()
        invariant
            i <= args.len(),
            !any_has_nul(views(args@).take(i as int)),
        decreases args.len() - i,
    {
        if contains_nul(args[i].as_str()) {
            assert(has_nul(views(args@)[i as int]));
            return true;
        }
        proof {
            let ghost before = views(args@).take(i as int);
            let ghost after = views(args@).take(i + 1);
            if any_has_nul(after) {
                let j = choose|j: int| 0 <= j < after.len() && has_nul(#[trigger] after[j]);
                if j < i {
                    assert(has_nul(before[j]));
                }
            }
        }
        i += 1;
    }
    assert(views(args@).take(args@.len() as int) =~= views(args@));
    false
}

/// The view of an optional string slice, empty where there is none.
pub open spec fn name_or_empty(o: Option<&str>) -> Seq<char> {
    match o {
        Some(s) => s@,
        None => Seq::empty(),
    }
}

/// Plans the command that the sandbox ends in: for an install the shell runs
/// the manifest's commands, otherwise the binary `bin` of the package runs
/// with `extra_args`. A command cannot be run where one of its arguments
/// holds a NUL character.
pub fn exec_in_sandbox(
    is_install: bool,
    install_commands: &Vec<String>,
    bin: Option<&str>,
    extra_args: Vec<String>,
) -> (r: Result<Step, SandboxError>)
    requires
        is_install || bin.is_some(),
    ensures
        any_has_nul(
            exec_argv(is_install, views(install_commands@), name_or_empty(bin), views(extra_args@)),
        ) ==> r == Err::<Step, SandboxError>(SandboxError::NulInArgument),
        !any_has_nul(
            exec_argv(is_install, views(install_commands@), name_or_empty(bin), views(extra_args@)),
        ) ==> r.is_ok() && r.unwrap()@ == exec_step(
            is_install,
            views(install_commands@),
            name_or_empty(bin),
            views(extra_args@),
        ),
{
    let mut argv: Vec<String> = Vec::new();
    let program: String;
    if is_install {
        let command = if install_commands.len() == 0 {
            "echo 'Isolated install complete'".to_string()
        } else {
            join(install_commands, " && ")
        };
        program = "/bin/sh".to_string();
        argv.push("/bin/sh".to_string());
        argv.push("-c".to_string());
        argv.push(command);
    } else {
        let name = match bin {
            Some(b) => b,
            None => "",
        };
        program = followed_by("/app/", name);
        argv.push(program.clone());
        let mut extra_args = extra_args;
        argv.append(&mut extra_args);
    }
    assert(views(argv@) =~= exec_argv(
        is_install,
        views(install_commands@),
        name_or_empty(bin),
        views(extra_args@),
    ));
    if any_contains_nul(&argv) {
        return Err(SandboxError::NulInArgument);
    }
    let env: Vec<String> = Vec::new();
    assert(views(env@) =~= Seq::<Seq<char>>::empty());
    Ok(Step::Exec { program, argv, env })
}

/// What the plan needs to know of the process that will carry it out.
#[derive(Clone, Debug, PartialEq, Eq)]
pub struct Host {
    /// The child's process id.
    pub pid: u32,
    /// The user that started the backend.
    pub uid: u32,
    /// That user's group.
    pub gid: u32,
    /// The host's `DISPLAY`, where it is set.
    pub display: Option<String>,
}

/// The mathematical value of a [`Host`].
pub struct HostView {
    pub pid: nat,
    pub uid: nat,
    pub gid: nat,
    pub display: Option<Seq<char>>,
}

impl View for Host {
    type V = HostView;

    open spec fn view(&self) -> HostView {
        HostView {
            pid: self.pid as nat,
            uid: self.uid as nat,
            gid: self.gid as nat,
            display: option_view(self.display),
        }
    }
}

/// The scratch directory that becomes the sandbox's root.
pub open spec fn new_root_path(pid: nat) -> Seq<char> {
    "/tmp/hpm_newroot_"@ + decimal(pid)
}

/// The scratch directory that becomes the sandbox's root.
pub fn new_root_for(pid: u32) -> (r: String)
    ensures
        r@ == new_root_path(pid as nat),
{
    followed_by("/tmp/hpm_newroot_", decimal_string(pid as u64).as_str())
}

/// What the child does before it has a root of its own: it leaves the host's
/// namespaces, names itself after the package, cuts mount propagation to the
/// host, maps its user, and mounts an empty file system to build the root in.
pub open spec fn isolation_plan(m: ManifestView, host: HostView) -> Seq<PlannedStepView> {
    seq![
        required(StepView::Unshare { namespaces: plan_namespaces(m.sandbox) }),
        required(StepView::SetHostname { name: m.name }),
        required(
            StepView::Mount {
                source: None,
                target: "/"@,
                fstype: None,
                flags: private_recursive(),
            },
        ),
    ] + user_mapping_plan(host.uid, host.gid) + seq![
        required(StepView::MakeDirs { path: new_root_path(host.pid) }),
        required(
            StepView::Mount {
                source: Some("tmpfs"@),
                target: new_root_path(host.pid),
                fstype: Some("tmpfs"@),
                flags: fresh_mount(),
            },
        ),
    ]
}

/// What the child does once it stands in its new root: it gives up the
/// right to gain privileges, caps its resources, restricts its file access
/// and its system calls, and goes to the package's tree.
pub open spec fn confinement_plan(m: ManifestView) -> Seq<PlannedStepView> {
    seq![required(StepView::NoNewPrivs)] + limits_plan() + seq![
        required(landlock_step(m.sandbox)),
        required(seccomp_step()),
        required(StepView::Chdir { path: "/app"@ }),
    ]
}

/// The setup that every sandbox goes through, whatever it then runs.
pub open spec fn setup_plan(path: Seq<char>, m: ManifestView, host: HostView) -> Seq<
    PlannedStepView,
> {
    isolation_plan(m, host) + mount_plan(new_root_path(host.pid), path, m.sandbox, host.display)
        + pivot_plan(new_root_path(host.pid)) + confinement_plan(m)
}

/// The whole plan of the child: the setup and, unless the sandbox is only
/// tried out, the command.
pub open spec fn child_plan(
    path: Seq<char>,
    m: ManifestView,
    is_install: bool,
    bin: Seq<char>,
    extra_args: Seq<Seq<char>>,
    test: bool,
    host: HostView,
) -> Seq<PlannedStepView> {
    if test {
        setup_plan(path, m, host)
    } else {
        setup_plan(path, m, host).push(
            required(exec_step(is_install, m.install_commands, bin, extra_args)),
        )
    }
}

/// Whether a plan can be made: a sandbox that runs a command needs one
/// without NUL characters.
pub open spec fn plannable(
    m: ManifestView,
    is_install: bool,
    bin: Seq<char>,
    extra_args: Seq<Seq<char>>,
    test: bool,
) -> bool {
    test || !any_has_nul(exec_argv(is_install, m.install_commands, bin, extra_args))
}

fn plan_isolation(manifest: &Manifest, host: &Host) -> (plan: Vec<PlannedStep>)
    ensures
        plan_view(plan@) == isolation_plan(manifest@, host@),
{
    let mut plan: Vec<PlannedStep> = Vec::new();
    push_required(
        &mut plan,
        Step::Unshare {
            namespaces: Namespaces {
                user: true,
                mount: true,
                uts: true,
                pid: true,
                cgroup: true,
                net: !manifest.sandbox.network,
                ipc: !manifest.sandbox.gui,
            },
        },
    );
    push_required(&mut plan, Step::SetHostname { name: manifest.name.clone() });
    push_required(
        &mut plan,
        Step::Mount {
            source: None,
            target: "/".to_string(),
            fstype: None,
            flags: MountFlags { bind: false, recursive: true, read_only: false, private: true },
        },
    );
    append_plan(&mut plan, setup_user_mapping(host.uid, host.gid));
    push_required(&mut plan, Step::MakeDirs { path: new_root_for(host.pid) });
    push_required(
        &mut plan,
        Step::Mount {
            source: Some("tmpfs".to_string()),
            target: new_root_for(host.pid),
            fstype: Some("tmpfs".to_string()),
            flags: MountFlags { bind: false, recursive: false, read_only: false, private: false },
        },
    );
    assert(plan_view(plan@) =~= isolation_plan(manifest@, host@));
    plan
}

fn plan_confinement(manifest: &Manifest) -> (plan: Vec<PlannedStep>)
    ensures
        plan_view(plan@) == confinement_plan(manifest@),
{
    let mut plan: Vec<PlannedStep> = Vec::new();
    push_required(&mut plan, Step::NoNewPrivs);
    append_plan(&mut plan, set_resource_limits());
    push_required(&mut plan, setup_landlock(manifest));
    push_required(&mut plan, setup_seccomp());
    push_required(&mut plan, Step::Chdir { path: "/app".to_string() });
    assert(plan_view(plan@) =~= confinement_plan(manifest@));
    plan
}

/// Plans what the child does for the package at `path`: the setup of the
/// sandbox that `manifest` asks for and, unless `test` is set, the command —
/// the manifest's install commands where `is_install` is set, else the
/// package's binary `bin` with `extra_args`.
///
/// Fails, with [`SandboxError::NulInArgument`], exactly where a command is to
/// be run and one of its arguments holds a NUL character.
pub fn child_setup(
    path: &str,
    manifest: &Manifest,
    is_install: bool,
    bin: Option<&str>,
    extra_args: Vec<String>,
    test: bool,
    host: &Host,
) -> (r: Result<Vec<PlannedStep>, SandboxError>)
    requires
        test || is_install || bin.is_some(),
    ensures
        plannable(manifest@, is_install, name_or_empty(bin), views(extra_args@), test) ==> r.is_ok()
            && plan_view(r.unwrap()@) == child_plan(
            path@,
            manifest@,
            is_install,
            name_or_empty(bin),
            views(extra_args@),
            test,
            host@,
        ),
        !plannable(manifest@, is_install, name_or_empty(bin), views(extra_args@), test) ==> r
            == Err::<Vec<PlannedStep>, SandboxError>(SandboxError::NulInArgument),
{
    let new_root = new_root_for(host.pid);
    let mut plan = plan_isolation(manifest, host);
    append_plan(
        &mut plan,
        setup_mounts(new_root.as_str(), path, &manifest.sandbox, host.display.as_ref()),
    );
    append_plan(&mut plan, pivot_and_chdir(new_root.as_str()));
    append_plan(&mut plan, plan_confinement(manifest));
    assert(plan_view(plan@) =~= setup_plan(path@, manifest@, host@));
    if test {
        return Ok(plan);
    }
    match exec_in_sandbox(is_install, &manifest.install_commands, bin, extra_args) {
        Ok(step) => {
            push_required(&mut plan, step);
            Ok(plan)
        },
        Err(e) => Err(e),
    }
}

/// How the child ended, as the parent saw it.
#[derive(Clone, Copy, Debug, PartialEq, Eq)]
pub enum ChildStatus {
    /// The child exited with this code.
    Exited(i32),
    /// The child ended in another way, by a signal for one.
    Other,
}

/// The exit code that stands for a child's end: its own where it exited, 1 otherwise.
pub open spec fn status_code(status: ChildStatus) -> i32 {
    match status {
        ChildStatus::Exited(code) => code,
        ChildStatus::Other => 1,
    }
}

/// The exit code that stands for a child's end: its own where it exited, 1 otherwise.
pub fn exit_code_of(status: ChildStatus) -> (code: i32)
    ensures
        code == status_code(status),
{
    match status {
        ChildStatus::Exited(code) => code,
        ChildStatus::Other => 1,
    }
}

/// The parent's judgement of a finished sandbox: success where the child
/// exited with 0, otherwise a failure that carries the child's code and
/// `diagnostic`, the message that the child left about its setup.
pub fn parent_verdict(status: ChildStatus, diagnostic: String) -> (r: Result<(), SandboxError>)
    ensures
        status_code(status) == 0 ==> r.is_ok(),
        status_code(status) != 0 ==> r == Err::<(), SandboxError>(
            SandboxError::ChildFailed { code: status_code(status), diagnostic },
        ),
{
    let code = exit_code_of(status);
    if code != 0 {
        return Err(SandboxError::ChildFailed { code, diagnostic });
    }
    Ok(())
}

/// The exit code of a child that has taken every step of a plan that ends
/// without a command.
pub const CHILD_DONE: i32 = 0;

/// The exit code of a child in which a step failed.
pub const CHILD_FAILED: i32 = 1;

/// What the caller of [`setup_sandbox`] is to do: fork; in the child, take
/// `steps` in order and exit as told here; in the parent, wait for the child
/// and pass what was seen to [`parent_verdict`].
#[derive(Clone, Debug, PartialEq, Eq)]
pub struct Launch {
    /// The child's steps.
    pub steps: Vec<PlannedStep>,
    /// The child's exit code once every step is taken and no command has
    /// replaced the process.
    pub exit_when_done: i32,
    /// The child's exit code where a step fails that had to succeed; before
    /// it exits it writes why to the pipe that it shares with the parent.
    pub exit_on_failure: i32,
}

/// Prepares a sandbox for the package at `path`: the plan of [`child_setup`]
/// together with the exit codes by which the child reports how it fared.
///
/// Fails where [`child_setup`] fails.
pub fn setup_sandbox(
    path: &str,
    manifest: &Manifest,
    is_install: bool,
    bin: Option<&str>,
    extra_args: Vec<String>,
    test: bool,
    host: &Host,
) -> (r: Result<Launch, SandboxError>)
    requires
        test || is_install || bin.is_some(),
    ensures
        plannable(manifest@, is_install, name_or_empty(bin), views(extra_args@), test) ==> r.is_ok()
            && plan_view(r.unwrap().steps@) == child_plan(
            path@,
            manifest@,
            is_install,
            name_or_empty(bin),
            views(extra_args@),
            test,
            host@,
        ) && r.unwrap().exit_when_done == CHILD_DONE && r.unwrap().exit_on_failure == CHILD_FAILED,
        !plannable(manifest@, is_install, name_or_empty(bin), views(extra_args@), test) ==> r
            == Err::<Launch, SandboxError>(SandboxError::NulInArgument),
{
    match child_setup(path, manifest, is_install, bin, extra_args, test, host) {
        Ok(steps) => Ok(Launch { steps, exit_when_done: CHILD_DONE, exit_on_failure: CHILD_FAILED }),
        Err(e) => Err(e),
    }
}

} // verus!
