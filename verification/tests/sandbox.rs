use hpm_backend::manifest::{Manifest, Sandbox};
use hpm_backend::sandbox::{
    child_setup, exec_in_sandbox, exit_code_of, new_root_for, parent_verdict, path_under,
    pivot_and_chdir, set_resource_limits, setup_landlock, setup_mounts, setup_sandbox,
    setup_seccomp, setup_user_mapping, system_dir_list, ChildStatus, Host, Launch, Limit,
    MountFlags, Namespaces, PathRule, PlannedStep, SandboxError, Step, Syscall, ACCESS_ALL,
    ACCESS_EXECUTE, ACCESS_MAKE_BLOCK, ACCESS_MAKE_CHAR, ACCESS_MAKE_DIR, ACCESS_MAKE_FIFO,
    ACCESS_MAKE_REG, ACCESS_MAKE_SOCK, ACCESS_MAKE_SYM, ACCESS_MUTATING, ACCESS_READ,
    ACCESS_READ_DIR, ACCESS_READ_EXEC, ACCESS_READ_FILE, ACCESS_REMOVE_DIR, ACCESS_REMOVE_FILE,
    ACCESS_WRITE_FILE, STORE_PATH,
};
use indexmap::IndexMap;

const BIND_RO: MountFlags = MountFlags { bind: true, recursive: true, read_only: true, private: false };
const BIND_RW: MountFlags = MountFlags { bind: true, recursive: true, read_only: false, private: false };
const FRESH: MountFlags = MountFlags { bind: false, recursive: false, read_only: false, private: false };

fn s(text: &str) -> String {
    text.to_string()
}

fn required(step: Step) -> PlannedStep {
    PlannedStep { step, when_exists: None, may_fail: false }
}

fn guarded(step: Step, path: &str) -> PlannedStep {
    PlannedStep { step, when_exists: Some(s(path)), may_fail: false }
}

fn tolerated(step: Step) -> PlannedStep {
    PlannedStep { step, when_exists: None, may_fail: true }
}

fn mkdirs(path: &str) -> Step {
    Step::MakeDirs { path: s(path) }
}

fn mount(source: Option<&str>, target: &str, fstype: Option<&str>, flags: MountFlags) -> Step {
    Step::Mount { source: source.map(s), target: s(target), fstype: fstype.map(s), flags }
}

fn manifest(sandbox: Sandbox, install_commands: Vec<String>) -> Manifest {
    Manifest {
        name: s("foo"),
        version: s("1.0"),
        authors: s("A"),
        license: s("MIT"),
        summary: s(""),
        long: s(""),
        system_specs: IndexMap::new(),
        deps: IndexMap::new(),
        bins: vec![s("foo")],
        sandbox,
        install_commands,
    }
}

fn closed() -> Sandbox {
    Sandbox { network: false, filesystem: Vec::new(), gui: false, dev: false }
}

fn host() -> Host {
    Host { pid: 4242, uid: 1000, gid: 100, display: Some(s(":0")) }
}

fn system_binds(root: &str) -> Vec<PlannedStep> {
    let mut plan = Vec::new();
    for dir in ["/usr", "/lib", "/lib64", "/bin", "/etc"] {
        let target = format!("{}{}", root, dir);
        plan.push(guarded(mkdirs(&target), dir));
        plan.push(guarded(mount(Some(dir), &target, None, BIND_RO), dir));
    }
    plan
}

fn package_mounts(root: &str, path: &str) -> Vec<PlannedStep> {
    vec![
        required(mkdirs(&format!("{}/app", root))),
        required(mount(Some(path), &format!("{}/app", root), None, BIND_RW)),
        required(mkdirs(&format!("{}/tmp", root))),
        required(mount(Some("tmpfs"), &format!("{}/tmp", root), Some("tmpfs"), FRESH)),
    ]
}

fn kernel_mounts(root: &str) -> Vec<PlannedStep> {
    vec![
        required(mkdirs(&format!("{}/proc", root))),
        required(mount(Some("proc"), &format!("{}/proc", root), Some("proc"), FRESH)),
        required(mkdirs(&format!("{}/sys", root))),
        required(mount(Some("sysfs"), &format!("{}/sys", root), Some("sysfs"), FRESH)),
    ]
}

fn base_rules() -> Vec<PathRule> {
    let mut rules = Vec::new();
    for dir in ["/usr", "/lib", "/lib64", "/bin", "/etc"] {
        rules.push(PathRule { path: s(dir), access: 13, if_exists: true });
    }
    rules.push(PathRule { path: s("/proc"), access: 12, if_exists: false });
    rules.push(PathRule { path: s("/sys"), access: 12, if_exists: false });
    rules.push(PathRule { path: s("/app"), access: 8191, if_exists: false });
    rules.push(PathRule { path: s("/tmp"), access: 8191, if_exists: false });
    rules
}

fn twelve_calls() -> Vec<Syscall> {
    vec![
        Syscall::Read,
        Syscall::Write,
        Syscall::Open,
        Syscall::Openat,
        Syscall::Close,
        Syscall::Exit,
        Syscall::ExitGroup,
        Syscall::Mmap,
        Syscall::Brk,
        Syscall::Futex,
        Syscall::Fstat,
        Syscall::Newfstatat,
    ]
}

fn closed_setup(path: &str) -> Vec<PlannedStep> {
    let root = "/tmp/hpm_newroot_4242";
    let mut plan = vec![
        required(Step::Unshare {
            namespaces: Namespaces {
                user: true,
                mount: true,
                uts: true,
                pid: true,
                cgroup: true,
                net: true,
                ipc: true,
            },
        }),
        required(Step::SetHostname { name: s("foo") }),
        required(mount(
            None,
            "/",
            None,
            MountFlags { bind: false, recursive: true, read_only: false, private: true },
        )),
        required(Step::WriteFile { path: s("/proc/self/uid_map"), content: s("0 1000 1\n") }),
        required(Step::WriteFile { path: s("/proc/self/setgroups"), content: s("deny\n") }),
        required(Step::WriteFile { path: s("/proc/self/gid_map"), content: s("0 100 1\n") }),
        required(mkdirs(root)),
        required(mount(Some("tmpfs"), root, Some("tmpfs"), FRESH)),
    ];
    plan.extend(system_binds(root));
    plan.extend(package_mounts(root, path));
    plan.extend(kernel_mounts(root));
    plan.extend(vec![
        required(Step::Chdir { path: s(root) }),
        required(mkdirs("old_root")),
        required(Step::PivotRoot { new_root: s("."), put_old: s("old_root") }),
        required(Step::Chdir { path: s("/") }),
        required(Step::Unmount { target: s("/old_root"), detach: true }),
        required(Step::NoNewPrivs),
        required(Step::SetLimit { limit: Limit::Cpu, amount: 60 }),
        required(Step::SetLimit { limit: Limit::AddressSpace, amount: 536870912 }),
        required(Step::SetLimit { limit: Limit::Processes, amount: 1024 }),
        required(Step::Landlock { handled: 8191, rules: base_rules() }),
        required(Step::Seccomp { errno: 1, allowed: twelve_calls() }),
        required(Step::Chdir { path: s("/app") }),
    ]);
    plan
}

#[test]
fn access_bits_are_the_kernels() {
    assert_eq!(ACCESS_EXECUTE, 1 << 0);
    assert_eq!(ACCESS_WRITE_FILE, 1 << 1);
    assert_eq!(ACCESS_READ_FILE, 1 << 2);
    assert_eq!(ACCESS_READ_DIR, 1 << 3);
    assert_eq!(ACCESS_REMOVE_DIR, 1 << 4);
    assert_eq!(ACCESS_REMOVE_FILE, 1 << 5);
    assert_eq!(ACCESS_MAKE_CHAR, 1 << 6);
    assert_eq!(ACCESS_MAKE_DIR, 1 << 7);
    assert_eq!(ACCESS_MAKE_REG, 1 << 8);
    assert_eq!(ACCESS_MAKE_SOCK, 1 << 9);
    assert_eq!(ACCESS_MAKE_FIFO, 1 << 10);
    assert_eq!(ACCESS_MAKE_BLOCK, 1 << 11);
    assert_eq!(ACCESS_MAKE_SYM, 1 << 12);
    assert_eq!(ACCESS_READ, ACCESS_READ_FILE | ACCESS_READ_DIR);
    assert_eq!(ACCESS_READ_EXEC, ACCESS_EXECUTE | ACCESS_READ_FILE | ACCESS_READ_DIR);
    assert_eq!(ACCESS_ALL, (1 << 13) - 1);
    assert_eq!(ACCESS_MUTATING, ACCESS_ALL & !ACCESS_READ_EXEC);
    assert_eq!(STORE_PATH, "/usr/lib/HackerOS/hpm/store/");
}

#[test]
fn new_root_is_named_after_the_process() {
    assert_eq!(new_root_for(1), "/tmp/hpm_newroot_1");
    assert_eq!(new_root_for(4242), "/tmp/hpm_newroot_4242");
    assert_eq!(path_under("/tmp/r", "/usr"), "/tmp/r/usr");
    assert_eq!(path_under("/tmp/r", "//home//u"), "/tmp/r/home//u");
    assert_eq!(path_under("/tmp/r", "rel"), "/tmp/r/rel");
    assert_eq!(path_under("/tmp/r", "/"), "/tmp/r/");
    assert_eq!(system_dir_list(), vec!["/usr", "/lib", "/lib64", "/bin", "/etc"]);
}

#[test]
fn user_mapping_denies_setgroups_before_the_group_map() {
    assert_eq!(
        setup_user_mapping(0, 4294967295),
        vec![
            required(Step::WriteFile { path: s("/proc/self/uid_map"), content: s("0 0 1\n") }),
            required(Step::WriteFile { path: s("/proc/self/setgroups"), content: s("deny\n") }),
            required(Step::WriteFile {
                path: s("/proc/self/gid_map"),
                content: s("0 4294967295 1\n")
            }),
        ]
    );
}

#[test]
fn closed_policy_mounts_the_least() {
    let mut expected = system_binds("/r");
    expected.extend(package_mounts("/r", "/opt/foo.tmp"));
    expected.extend(kernel_mounts("/r"));
    assert_eq!(setup_mounts("/r", "/opt/foo.tmp", &closed(), Some(&s(":0"))), expected);
}

#[test]
fn gui_binds_the_display_socket() {
    let policy = Sandbox { gui: true, ..closed() };
    let mut expected = system_binds("/r");
    expected.extend(package_mounts("/r", "/p"));
    expected.push(required(mkdirs("/r/tmp/.X11-unix")));
    expected.push(guarded(
        mount(Some("/tmp/.X11-unix"), "/r/tmp/.X11-unix", None, BIND_RW),
        "/tmp/.X11-unix",
    ));
    expected.push(required(Step::SetEnv { name: s("DISPLAY"), value: s(":1") }));
    expected.extend(kernel_mounts("/r"));
    assert_eq!(setup_mounts("/r", "/p", &policy, Some(&s(":1"))), expected);

    let mut without = system_binds("/r");
    without.extend(package_mounts("/r", "/p"));
    without.push(required(mkdirs("/r/tmp/.X11-unix")));
    without.push(guarded(
        mount(Some("/tmp/.X11-unix"), "/r/tmp/.X11-unix", None, BIND_RW),
        "/tmp/.X11-unix",
    ));
    without.extend(kernel_mounts("/r"));
    assert_eq!(setup_mounts("/r", "/p", &policy, None), without);
}

#[test]
fn dev_makes_the_five_nodes() {
    let policy = Sandbox { dev: true, ..closed() };
    let node = |name: &str, major: u64, minor: u64| {
        tolerated(Step::MakeCharDevice {
            path: format!("/r/dev/{}", name),
            major,
            minor,
            mode: 0o666,
        })
    };
    let mut expected = system_binds("/r");
    expected.extend(package_mounts("/r", "/p"));
    expected.push(required(mkdirs("/r/dev")));
    expected.push(required(mount(Some("tmpfs"), "/r/dev", Some("tmpfs"), FRESH)));
    expected.push(node("null", 1, 3));
    expected.push(node("zero", 1, 5));
    expected.push(node("random", 1, 8));
    expected.push(node("urandom", 1, 9));
    expected.push(node("tty", 5, 0));
    expected.extend(kernel_mounts("/r"));
    assert_eq!(setup_mounts("/r", "/p", &policy, None), expected);
}

#[test]
fn extra_paths_are_bound_read_write_where_they_exist() {
    let policy = Sandbox { filesystem: vec![s("/home/u/data"), s("/srv")], ..closed() };
    let mut expected = system_binds("/r");
    expected.extend(package_mounts("/r", "/p"));
    for path in ["/home/u/data", "/srv"] {
        let target = format!("/r{}", path);
        expected.push(guarded(Step::MakeParentDirs { path: target.clone() }, path));
        expected.push(guarded(mount(Some(path), &target, None, BIND_RW), path));
    }
    expected.extend(kernel_mounts("/r"));
    assert_eq!(setup_mounts("/r", "/p", &policy, None), expected);
}

#[test]
fn pivot_swaps_the_roots() {
    assert_eq!(
        pivot_and_chdir("/tmp/hpm_newroot_7"),
        vec![
            required(Step::Chdir { path: s("/tmp/hpm_newroot_7") }),
            required(mkdirs("old_root")),
            required(Step::PivotRoot { new_root: s("."), put_old: s("old_root") }),
            required(Step::Chdir { path: s("/") }),
            required(Step::Unmount { target: s("/old_root"), detach: true }),
        ]
    );
}

#[test]
fn limits_are_cpu_memory_processes() {
    assert_eq!(
        set_resource_limits(),
        vec![
            required(Step::SetLimit { limit: Limit::Cpu, amount: 60 }),
            required(Step::SetLimit { limit: Limit::AddressSpace, amount: 512 * 1024 * 1024 }),
            required(Step::SetLimit { limit: Limit::Processes, amount: 1024 }),
        ]
    );
}

#[test]
fn landlock_rules_follow_the_policy() {
    assert_eq!(
        setup_landlock(&manifest(closed(), Vec::new())),
        Step::Landlock { handled: 8191, rules: base_rules() }
    );
    let open = Sandbox { dev: true, filesystem: vec![s("/srv"), s("/dev")], ..closed() };
    let mut rules = base_rules();
    rules.push(PathRule { path: s("/dev"), access: 8191, if_exists: false });
    rules.push(PathRule { path: s("/srv"), access: 8191, if_exists: true });
    rules.push(PathRule { path: s("/dev"), access: 8191, if_exists: true });
    assert_eq!(
        setup_landlock(&manifest(open, Vec::new())),
        Step::Landlock { handled: 8191, rules }
    );
}

#[test]
fn no_rule_lets_the_system_be_written() {
    let step = setup_landlock(&manifest(closed(), Vec::new()));
    let rules = match step {
        Step::Landlock { rules, .. } => rules,
        _ => unreachable!(),
    };
    for rule in rules {
        if rule.path != "/app" && rule.path != "/tmp" {
            assert_eq!(rule.access & ACCESS_MUTATING, 0);
        }
        assert_ne!(rule.path, "/dev");
    }
}

#[test]
fn seccomp_allows_the_twelve_calls() {
    assert_eq!(setup_seccomp(), Step::Seccomp { errno: 1, allowed: twelve_calls() });
}

#[test]
fn install_runs_the_commands_through_the_shell() {
    assert_eq!(
        exec_in_sandbox(true, &vec![s("make"), s("make install")], None, Vec::new()),
        Ok(Step::Exec {
            program: s("/bin/sh"),
            argv: vec![s("/bin/sh"), s("-c"), s("make && make install")],
            env: Vec::new(),
        })
    );
    assert_eq!(
        exec_in_sandbox(true, &vec![s("exit 1")], Some("ignored"), vec![s("ignored")]),
        Ok(Step::Exec {
            program: s("/bin/sh"),
            argv: vec![s("/bin/sh"), s("-c"), s("exit 1")],
            env: Vec::new(),
        })
    );
}

#[test]
fn install_without_commands_echoes() {
    assert_eq!(
        exec_in_sandbox(true, &Vec::new(), None, Vec::new()),
        Ok(Step::Exec {
            program: s("/bin/sh"),
            argv: vec![s("/bin/sh"), s("-c"), s("echo 'Isolated install complete'")],
            env: Vec::new(),
        })
    );
}

#[test]
fn run_executes_the_binary_with_the_arguments() {
    assert_eq!(
        exec_in_sandbox(false, &vec![s("make")], Some("tool"), vec![s("-v"), s("a b")]),
        Ok(Step::Exec {
            program: s("/app/tool"),
            argv: vec![s("/app/tool"), s("-v"), s("a b")],
            env: Vec::new(),
        })
    );
}

#[test]
fn nul_in_an_argument_is_refused() {
    assert_eq!(
        exec_in_sandbox(false, &Vec::new(), Some("to\0ol"), Vec::new()),
        Err(SandboxError::NulInArgument)
    );
    assert_eq!(
        exec_in_sandbox(false, &Vec::new(), Some("tool"), vec![s("ok"), s("\0")]),
        Err(SandboxError::NulInArgument)
    );
    assert_eq!(
        exec_in_sandbox(true, &vec![s("echo \0")], None, Vec::new()),
        Err(SandboxError::NulInArgument)
    );
    assert_eq!(
        exec_in_sandbox(true, &Vec::new(), Some("to\0ol"), vec![s("\0")]),
        Ok(Step::Exec {
            program: s("/bin/sh"),
            argv: vec![s("/bin/sh"), s("-c"), s("echo 'Isolated install complete'")],
            env: Vec::new(),
        })
    );
    assert_eq!(SandboxError::NulInArgument.message(), "Command argument holds a NUL character");
}

#[test]
fn closed_sandbox_test_plan_is_the_setup_alone() {
    let m = manifest(closed(), vec![s("make")]);
    assert_eq!(
        child_setup("/tmp/stage", &m, true, None, Vec::new(), true, &host()),
        Ok(closed_setup("/tmp/stage"))
    );
}

#[test]
fn install_plan_ends_in_the_shell() {
    let m = manifest(closed(), vec![s("make")]);
    let mut expected = closed_setup("/opt/foo.tmp");
    expected.push(required(Step::Exec {
        program: s("/bin/sh"),
        argv: vec![s("/bin/sh"), s("-c"), s("make")],
        env: Vec::new(),
    }));
    assert_eq!(
        child_setup("/opt/foo.tmp", &m, true, None, Vec::new(), false, &host()),
        Ok(expected)
    );
}

#[test]
fn run_plan_ends_in_the_binary() {
    let m = manifest(closed(), vec![s("make")]);
    let mut expected = closed_setup("/usr/lib/HackerOS/hpm/store/foo/current");
    expected.push(required(Step::Exec {
        program: s("/app/foo"),
        argv: vec![s("/app/foo"), s("--help")],
        env: Vec::new(),
    }));
    assert_eq!(
        setup_sandbox(
            "/usr/lib/HackerOS/hpm/store/foo/current",
            &m,
            false,
            Some("foo"),
            vec![s("--help")],
            false,
            &host()
        ),
        Ok(Launch { steps: expected, exit_when_done: 0, exit_on_failure: 1 })
    );
}

#[test]
fn shared_network_and_gui_keep_their_namespaces() {
    let policy = Sandbox { network: true, gui: true, ..closed() };
    let plan = child_setup("/p", &manifest(policy, Vec::new()), true, None, Vec::new(), true, &host())
        .unwrap();
    assert_eq!(
        plan[0],
        required(Step::Unshare {
            namespaces: Namespaces {
                user: true,
                mount: true,
                uts: true,
                pid: true,
                cgroup: true,
                net: false,
                ipc: false,
            },
        })
    );
    assert!(plan.contains(&required(Step::SetEnv { name: s("DISPLAY"), value: s(":0") })));
}

#[test]
fn nul_fails_the_plan_unless_it_is_a_trial() {
    let m = manifest(closed(), vec![s("a\0")]);
    assert_eq!(
        setup_sandbox("/p", &m, true, None, Vec::new(), false, &host()),
        Err(SandboxError::NulInArgument)
    );
    assert!(setup_sandbox("/p", &m, true, None, Vec::new(), true, &host()).is_ok());
}

#[test]
fn parent_judges_by_the_exit_code() {
    assert_eq!(exit_code_of(ChildStatus::Exited(0)), 0);
    assert_eq!(exit_code_of(ChildStatus::Exited(7)), 7);
    assert_eq!(exit_code_of(ChildStatus::Other), 1);
    assert_eq!(parent_verdict(ChildStatus::Exited(0), s("")), Ok(()));
    assert_eq!(parent_verdict(ChildStatus::Exited(0), s("noise")), Ok(()));
    let failed = parent_verdict(ChildStatus::Exited(1), s("Unshare failed"));
    assert_eq!(
        failed,
        Err(SandboxError::ChildFailed { code: 1, diagnostic: s("Unshare failed") })
    );
    assert_eq!(failed.unwrap_err().message(), "Sandbox child failed: Unshare failed");
    assert_eq!(
        parent_verdict(ChildStatus::Other, s("")),
        Err(SandboxError::ChildFailed { code: 1, diagnostic: s("") })
    );
}
