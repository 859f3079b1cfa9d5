//! What holds of every sandbox plan, whatever the package and its policy.

use vstd::prelude::*;
use crate::manifest::{ManifestView, SandboxView};
use crate::sandbox::{
    child_plan, confinement_plan, dev_steps, exec_step, extra_binds, gui_steps,
    isolation_plan, kernel_mounts, landlock_rules, landlock_step, limits_plan, mount_plan,
    new_root_path, package_mounts, pivot_plan, plan_namespaces, required, rules_for, seccomp_step,
    setup_plan, system_binds, system_dirs, user_mapping_plan, HostView, PathRuleView,
    PlannedStepView, StepView, ACCESS_ALL, ACCESS_MUTATING, ACCESS_READ, ACCESS_READ_EXEC,
};

verus! {

/// The kinds of step that the laws below keep out of parts of a plan.
pub enum Unwanted {
    /// A step that replaces the process by a command.
    Command,
    /// A step that makes a device node.
    Device,
}

/// Whether a step is of the unwanted kind.
pub open spec fn is_unwanted(step: StepView, kind: Unwanted) -> bool {
    match kind {
        Unwanted::Command => step is Exec,
        Unwanted::Device => step is MakeCharDevice,
    }
}

/// Whether no step of the plan is of the unwanted kind.
pub open spec fn free_of(plan: Seq<PlannedStepView>, kind: Unwanted) -> bool {
    forall|i: int| 0 <= i < plan.len() ==> !is_unwanted((#[trigger] plan[i]).step, kind)
}

/// Whether no step of the plan replaces the process by a command.
pub open spec fn runs_nothing(plan: Seq<PlannedStepView>) -> bool {
    free_of(plan, Unwanted::Command)
}

/// Whether no step of the plan makes a device node.
pub open spec fn makes_no_device(plan: Seq<PlannedStepView>) -> bool {
    free_of(plan, Unwanted::Device)
}

proof fn lemma_free_of_concat(a: Seq<PlannedStepView>, b: Seq<PlannedStepView>, kind: Unwanted)
    requires
        free_of(a, kind),
        free_of(b, kind),
    ensures
        free_of(a + b, kind),
{
    assert forall|i: int| 0 <= i < (a + b).len() implies !is_unwanted(
        (#[trigger] (a + b)[i]).step,
        kind,
    ) by {
        if i < a.len() {
            assert((a + b)[i] == a[i]);
        } else {
            assert((a + b)[i] == b[i - a.len()]);
        }
    }
}

proof fn lemma_system_binds_free(root: Seq<char>, dirs: Seq<Seq<char>>, kind: Unwanted)
    ensures
        free_of(system_binds(root, dirs), kind),
    decreases dirs.len(),
{
    if dirs.len() > 0 {
        lemma_system_binds_free(root, dirs.drop_last(), kind);
        let tail = system_binds(root, dirs).skip(system_binds(root, dirs.drop_last()).len() as int);
        assert(free_of(tail, kind));
        assert(system_binds(root, dirs) =~= system_binds(root, dirs.drop_last()) + tail);
        lemma_free_of_concat(system_binds(root, dirs.drop_last()), tail, kind);
    }
}

proof fn lemma_extra_binds_free(root: Seq<char>, paths: Seq<Seq<char>>, kind: Unwanted)
    ensures
        free_of(extra_binds(root, paths), kind),
    decreases paths.len(),
{
    if paths.len() > 0 {
        lemma_extra_binds_free(root, paths.drop_last(), kind);
        let tail = extra_binds(root, paths).skip(extra_binds(root, paths.drop_last()).len() as int);
        assert(free_of(tail, kind));
        assert(extra_binds(root, paths) =~= extra_binds(root, paths.drop_last()) + tail);
        lemma_free_of_concat(extra_binds(root, paths.drop_last()), tail, kind);
    }
}

proof fn lemma_mount_plan_free(
    root: Seq<char>,
    path: Seq<char>,
    sb: SandboxView,
    display: Option<Seq<char>>,
    kind: Unwanted,
)
    requires
        kind is Device ==> !sb.dev,
    ensures
        free_of(mount_plan(root, path, sb, display), kind),
{
    let a = system_binds(root, system_dirs());
    let b = package_mounts(root, path);
    let c = if sb.gui {
        gui_steps(root, display)
    } else {
        Seq::empty()
    };
    let d = if sb.dev {
        dev_steps(root)
    } else {
        Seq::empty()
    };
    let e = extra_binds(root, sb.filesystem);
    let f = kernel_mounts(root);
    lemma_system_binds_free(root, system_dirs(), kind);
    lemma_extra_binds_free(root, sb.filesystem, kind);
    assert(free_of(b, kind));
    assert(free_of(c, kind));
    assert(free_of(d, kind));
    assert(free_of(f, kind));
    lemma_free_of_concat(a, b, kind);
    lemma_free_of_concat(a + b, c, kind);
    lemma_free_of_concat(a + b + c, d, kind);
    lemma_free_of_concat(a + b + c + d, e, kind);
    lemma_free_of_concat(a + b + c + d + e, f, kind);
}

proof fn lemma_setup_free(path: Seq<char>, m: ManifestView, host: HostView, kind: Unwanted)
    requires
        kind is Device ==> !m.sandbox.dev,
    ensures
        free_of(setup_plan(path, m, host), kind),
{
    let a = isolation_plan(m, host);
    let b = mount_plan(new_root_path(host.pid), path, m.sandbox, host.display);
    let c = pivot_plan(new_root_path(host.pid));
    let d = confinement_plan(m);
    lemma_mount_plan_free(new_root_path(host.pid), path, m.sandbox, host.display, kind);
    assert(free_of(user_mapping_plan(host.uid, host.gid), kind));
    assert(free_of(a, kind));
    assert(free_of(c, kind));
    assert(free_of(limits_plan(), kind));
    assert(free_of(d, kind));
    lemma_free_of_concat(a, b, kind);
    lemma_free_of_concat(a + b, c, kind);
    lemma_free_of_concat(a + b + c, d, kind);
}

/// The setup of a sandbox runs no command.
pub proof fn lemma_setup_runs_nothing(path: Seq<char>, m: ManifestView, host: HostView)
    ensures
        runs_nothing(setup_plan(path, m, host)),
{
    lemma_setup_free(path, m, host, Unwanted::Command);
}

/// Where the policy grants no devices, no plan makes a device node.
pub proof fn lemma_no_device_unless_granted(
    path: Seq<char>,
    m: ManifestView,
    is_install: bool,
    bin: Seq<char>,
    extra_args: Seq<Seq<char>>,
    test: bool,
    host: HostView,
)
    requires
        !m.sandbox.dev,
    ensures
        makes_no_device(child_plan(path, m, is_install, bin, extra_args, test, host)),
{
    lemma_setup_free(path, m, host, Unwanted::Device);
    if !test {
        let last = seq![required(exec_step(is_install, m.install_commands, bin, extra_args))];
        assert(free_of(last, Unwanted::Device));
        lemma_free_of_concat(setup_plan(path, m, host), last, Unwanted::Device);
        assert(child_plan(path, m, is_install, bin, extra_args, test, host) =~= setup_plan(
            path,
            m,
            host,
        ) + last);
    }
}

/// Every plan begins by leaving the host's namespaces, and among them the
/// network's unless the policy shares the network, and the one of
/// inter-process communication unless the package needs the display server.
pub proof fn lemma_plan_begins_in_new_namespaces(
    path: Seq<char>,
    m: ManifestView,
    is_install: bool,
    bin: Seq<char>,
    extra_args: Seq<Seq<char>>,
    test: bool,
    host: HostView,
)
    ensures
        child_plan(path, m, is_install, bin, extra_args, test, host).len() > 0,
        child_plan(path, m, is_install, bin, extra_args, test, host)[0] == required(
            StepView::Unshare { namespaces: plan_namespaces(m.sandbox) },
        ),
        plan_namespaces(m.sandbox).net == !m.sandbox.network,
        plan_namespaces(m.sandbox).ipc == !m.sandbox.gui,
        plan_namespaces(m.sandbox).user && plan_namespaces(m.sandbox).mount && plan_namespaces(
            m.sandbox,
        ).uts && plan_namespaces(m.sandbox).pid && plan_namespaces(m.sandbox).cgroup,
{
    let setup = setup_plan(path, m, host);
    assert(isolation_plan(m, host)[0] == required(
        StepView::Unshare { namespaces: plan_namespaces(m.sandbox) },
    ));
    assert(setup[0] == isolation_plan(m, host)[0]);
}

/// Every plan that runs a command runs it as its last step, after the file
/// access and the system calls were restricted and the process went to the
/// package's tree; and no plan runs a command at any other step.
pub proof fn lemma_command_runs_last_and_confined(
    path: Seq<char>,
    m: ManifestView,
    is_install: bool,
    bin: Seq<char>,
    extra_args: Seq<Seq<char>>,
    test: bool,
    host: HostView,
)
    ensures
        ({
            let plan = child_plan(path, m, is_install, bin, extra_args, test, host);
            let n = plan.len() as int;
            &&& test ==> runs_nothing(plan)
            &&& !test ==> {
                &&& n >= 5
                &&& plan[n - 1] == required(
                    exec_step(is_install, m.install_commands, bin, extra_args),
                )
                &&& plan[n - 2] == required(StepView::Chdir { path: "/app"@ })
                &&& plan[n - 3] == required(seccomp_step())
                &&& plan[n - 4] == required(landlock_step(m.sandbox))
                &&& runs_nothing(plan.take(n - 1))
            }
        }),
{
    let setup = setup_plan(path, m, host);
    lemma_setup_runs_nothing(path, m, host);
    let d = confinement_plan(m);
    assert(d.len() == 7);
    assert(d[6] == required(StepView::Chdir { path: "/app"@ }));
    assert(d[5] == required(seccomp_step()));
    assert(d[4] == required(landlock_step(m.sandbox)));
    let front = isolation_plan(m, host) + mount_plan(
        new_root_path(host.pid),
        path,
        m.sandbox,
        host.display,
    ) + pivot_plan(new_root_path(host.pid));
    assert(setup == front + d);
    let k = setup.len() as int;
    assert(setup[k - 1] == d[6]);
    assert(setup[k - 2] == d[5]);
    assert(setup[k - 3] == d[4]);
    if !test {
        let plan = child_plan(path, m, is_install, bin, extra_args, test, host);
        assert(plan.take(plan.len() - 1) =~= setup);
    }
}

/// Whether a rule grants a right that changes what is on disk.
pub open spec fn grants_change(rule: PathRuleView) -> bool {
    rule.access & ACCESS_MUTATING != 0
}

/// The Landlock rules grant a right that changes what is on disk only on
/// the package's tree, on its scratch space, on `/dev` where the policy
/// grants devices, and on the host paths that the policy names. On the
/// system directories, on `/proc` and on `/sys` they grant none.
pub proof fn lemma_change_only_where_granted(sb: SandboxView, i: int)
    requires
        0 <= i < landlock_rules(sb).len(),
    ensures
        grants_change(landlock_rules(sb)[i]) ==> landlock_rules(sb)[i].path == "/app"@
            || landlock_rules(sb)[i].path == "/tmp"@ || (sb.dev && landlock_rules(sb)[i].path
            == "/dev"@) || sb.filesystem.contains(landlock_rules(sb)[i].path),
        i < 5 ==> landlock_rules(sb)[i].path == system_dirs()[i] && !grants_change(
            landlock_rules(sb)[i],
        ),
{
    assert(ACCESS_READ_EXEC & ACCESS_MUTATING == 0) by (bit_vector);
    assert(ACCESS_READ & ACCESS_MUTATING == 0) by (bit_vector);
    let a = rules_for(system_dirs(), ACCESS_READ_EXEC);
    let b = seq![
        PathRuleView { path: "/proc"@, access: ACCESS_READ, if_exists: false },
        PathRuleView { path: "/sys"@, access: ACCESS_READ, if_exists: false },
        PathRuleView { path: "/app"@, access: ACCESS_ALL, if_exists: false },
        PathRuleView { path: "/tmp"@, access: ACCESS_ALL, if_exists: false },
    ];
    let c = if sb.dev {
        seq![PathRuleView { path: "/dev"@, access: ACCESS_ALL, if_exists: false }]
    } else {
        Seq::empty()
    };
    let d = rules_for(sb.filesystem, ACCESS_ALL);
    let rules = landlock_rules(sb);
    assert(rules == a + b + c + d);
    assert(a.len() == 5);
    if i < 5 {
        assert(rules[i] == a[i]);
    } else if i < 9 {
        assert(rules[i] == b[i - 5]);
    } else if i < 9 + c.len() {
        assert(rules[i] == c[i - 9]);
    } else {
        let j = i - 9 - c.len();
        assert(rules[i] == d[j]);
        assert(sb.filesystem[j] == d[j].path);
    }
}

/// Each system directory is bound beneath the new root so that nothing can
/// be written through the mount.
pub proof fn lemma_system_binds_read_only(root: Seq<char>, dirs: Seq<Seq<char>>, i: int)
    requires
        0 <= i < system_binds(root, dirs).len(),
    ensures
        system_binds(root, dirs)[i].step is Mount ==> system_binds(root, dirs)[i].step->flags.bind
            && system_binds(root, dirs)[i].step->flags.read_only,
    decreases dirs.len(),
{
    if dirs.len() > 0 {
        let front = system_binds(root, dirs.drop_last());
        if i < front.len() {
            lemma_system_binds_read_only(root, dirs.drop_last(), i);
            assert(system_binds(root, dirs)[i] == front[i]);
        }
    }
}

/// Where the policy grants no devices and names no host path `/dev`, no
/// Landlock rule speaks of `/dev`.
pub proof fn lemma_no_rule_on_dev(sb: SandboxView, i: int)
    requires
        !sb.dev,
        !sb.filesystem.contains("/dev"@),
        0 <= i < landlock_rules(sb).len(),
    ensures
        landlock_rules(sb)[i].path != "/dev"@,
{
    reveal_strlit("/dev");
    reveal_strlit("/usr");
    reveal_strlit("/lib");
    reveal_strlit("/lib64");
    reveal_strlit("/bin");
    reveal_strlit("/etc");
    reveal_strlit("/proc");
    reveal_strlit("/sys");
    reveal_strlit("/app");
    reveal_strlit("/tmp");
    let a = rules_for(system_dirs(), ACCESS_READ_EXEC);
    let b = seq![
        PathRuleView { path: "/proc"@, access: ACCESS_READ, if_exists: false },
        PathRuleView { path: "/sys"@, access: ACCESS_READ, if_exists: false },
        PathRuleView { path: "/app"@, access: ACCESS_ALL, if_exists: false },
        PathRuleView { path: "/tmp"@, access: ACCESS_ALL, if_exists: false },
    ];
    let d = rules_for(sb.filesystem, ACCESS_ALL);
    let rules = landlock_rules(sb);
    assert(rules =~= a + b + d);
    assert(a.len() == 5);
    let dev = "/dev"@;
    if i < 5 {
        assert(rules[i] == a[i]);
        assert(a[i].path == system_dirs()[i]);
        assert("/usr"@[1] != dev[1]);
        assert("/lib"@[1] != dev[1]);
        assert("/lib64"@[1] != dev[1]);
        assert("/bin"@[1] != dev[1]);
        assert("/etc"@[1] != dev[1]);
    } else if i < 9 {
        assert(rules[i] == b[i - 5]);
        assert("/proc"@[1] != dev[1]);
        assert("/sys"@[1] != dev[1]);
        assert("/app"@[1] != dev[1]);
        assert("/tmp"@[1] != dev[1]);
    } else {
        let j = i - 9;
        assert(rules[i] == d[j]);
        assert(sb.filesystem[j] == d[j].path);
    }
}

} // verus!
