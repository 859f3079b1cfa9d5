use hpm_backend::engine::{install, remove, run, Action, Event, Install, Phase, RunRequest};
use hpm_backend::manifest::{Manifest, Sandbox};
use hpm_backend::state::{remove_version, update_state, State};
use indexmap::IndexMap;
use std::collections::BTreeMap;

fn s(text: &str) -> String {
    text.to_string()
}

/// A disk of trees, each known by one word, and a registry.
struct World {
    trees: BTreeMap<String, String>,
    state: State,
    fail_in: Option<Phase>,
    seen: Vec<Action>,
}

impl World {
    fn new(trees: &[(&str, &str)], fail_in: Option<Phase>) -> World {
        World {
            trees: trees.iter().map(|(k, v)| (s(k), s(v))).collect(),
            state: State::new(),
            fail_in,
            seen: Vec::new(),
        }
    }

    fn perform(&mut self, action: &Action) -> Event {
        match action {
            Action::CreateDirs { path } => {
                self.trees.entry(path.clone()).or_insert_with(|| s(""));
                Event::Done
            }
            Action::Flatten { .. } => Event::Absent,
            Action::LoadManifest { dir } | Action::VerifyTree { dir, .. } | Action::RunSandbox { dir } => {
                if self.trees.contains_key(dir) {
                    Event::Done
                } else {
                    Event::Failed
                }
            }
            Action::MoveAside { from, to } => match self.trees.remove(from) {
                Some(tree) => {
                    self.trees.insert(to.clone(), tree);
                    Event::Done
                }
                None => Event::Absent,
            },
            Action::Rename { from, to } => match self.trees.remove(from) {
                Some(tree) => {
                    self.trees.insert(to.clone(), tree);
                    Event::Done
                }
                None => Event::Failed,
            },
            Action::RecordVersion { name, version, checksum } => {
                update_state(&mut self.state, name, version, checksum);
                Event::Done
            }
            Action::RemoveTree { path } => match self.trees.remove(path) {
                Some(_) => Event::Done,
                None => Event::Absent,
            },
            Action::Unlink { .. } => Event::Done,
            Action::ForgetVersion { name, version } => {
                remove_version(&mut self.state, name, version);
                Event::Done
            }
            Action::Finish { .. } => Event::Done,
        }
    }

    fn drive(&mut self, mut transaction: Install) -> Option<Phase> {
        for _ in 0..64 {
            let action = transaction.action();
            self.seen.push(action.clone());
            if let Action::Finish { failed_at } = action {
                assert!(transaction.is_finished());
                return failed_at;
            }
            assert!(!transaction.is_finished());
            let event = if self.fail_in == Some(transaction.phase) {
                Event::Failed
            } else {
                self.perform(&action)
            };
            transaction.advance(event);
        }
        panic!("the install did not end");
    }

    fn tree(&self, path: &str) -> Option<&str> {
        self.trees.get(path).map(|t| t.as_str())
    }
}

fn foo() -> Install {
    install("foo", "1.0", "/opt/foo", "H")
}

#[test]
fn install_starts_by_staging() {
    let t = foo();
    assert_eq!(t.phase, Phase::Stage);
    assert!(!t.backed_up);
    assert_eq!(t.failed_at, None);
    assert_eq!(t.action(), Action::CreateDirs { path: s("/opt/foo.tmp") });
}

#[test]
fn install_happy_path() {
    let mut world = World::new(&[("/opt/foo.tmp", "new")], None);
    assert_eq!(world.drive(foo()), None);
    assert_eq!(world.tree("/opt/foo"), Some("new"));
    assert_eq!(world.tree("/opt/foo.tmp"), None);
    assert_eq!(world.tree("/opt/foo.old"), None);
    assert_eq!(world.state.to_json(), "{\"packages\":{\"foo\":{\"1.0\":\"H\"}}}");
    assert_eq!(
        world.seen,
        vec![
            Action::CreateDirs { path: s("/opt/foo.tmp") },
            Action::Flatten { dir: s("/opt/foo.tmp"), nested: s("/opt/foo.tmp/contents") },
            Action::LoadManifest { dir: s("/opt/foo.tmp") },
            Action::VerifyTree { dir: s("/opt/foo.tmp"), checksum: s("H") },
            Action::RunSandbox { dir: s("/opt/foo.tmp") },
            Action::MoveAside { from: s("/opt/foo"), to: s("/opt/foo.old") },
            Action::Rename { from: s("/opt/foo.tmp"), to: s("/opt/foo") },
            Action::RecordVersion { name: s("foo"), version: s("1.0"), checksum: s("H") },
            Action::RemoveTree { path: s("/opt/foo.old") },
            Action::Finish { failed_at: None },
        ]
    );
}

#[test]
fn install_checksum_mismatch() {
    let mut world = World::new(&[("/opt/foo.tmp", "new")], Some(Phase::Verify));
    assert_eq!(world.drive(install("foo", "1.0", "/opt/foo", "deadbeef")), Some(Phase::Verify));
    assert_eq!(world.tree("/opt/foo"), None);
    assert_eq!(world.state, State::new());
    assert_eq!(world.seen.last(), Some(&Action::Finish { failed_at: Some(Phase::Verify) }));
    assert_eq!(world.seen.len(), 5);
    assert_eq!(Phase::Verify.context(), "Verification failed");
}

#[test]
fn install_rollback_over_existing() {
    let mut world = World::new(&[("/opt/foo", "marker=v1"), ("/opt/foo.tmp", "new")], Some(Phase::Sandbox));
    assert_eq!(world.drive(foo()), Some(Phase::Sandbox));
    assert_eq!(world.tree("/opt/foo"), Some("marker=v1"));
    assert_eq!(world.tree("/opt/foo.old"), None);
    assert_eq!(world.state, State::new());
    assert_eq!(Phase::Sandbox.context(), "Sandbox setup failed");
}

#[test]
fn failures_before_the_backup_change_nothing() {
    for phase in [Phase::Stage, Phase::Flatten, Phase::Manifest, Phase::Verify, Phase::Sandbox] {
        let mut world = World::new(&[("/opt/foo", "v1"), ("/opt/foo.tmp", "new")], Some(phase));
        assert_eq!(world.drive(foo()), Some(phase));
        assert_eq!(world.tree("/opt/foo"), Some("v1"));
        assert_eq!(world.tree("/opt/foo.old"), None);
        assert_eq!(world.state, State::new());
        assert!(!world.seen.iter().any(|a| matches!(a, Action::RemoveTree { .. })));
    }
}

#[test]
fn failed_promotion_restores_the_backup() {
    let mut world = World::new(&[("/opt/foo", "v1"), ("/opt/foo.tmp", "new")], Some(Phase::Promote));
    assert_eq!(world.drive(foo()), Some(Phase::Promote));
    assert_eq!(world.tree("/opt/foo"), Some("v1"));
    assert_eq!(world.tree("/opt/foo.old"), None);
    assert_eq!(world.state, State::new());
    let tail: Vec<Action> = world.seen[world.seen.len() - 3..].to_vec();
    assert_eq!(
        tail,
        vec![
            Action::RemoveTree { path: s("/opt/foo") },
            Action::Rename { from: s("/opt/foo.old"), to: s("/opt/foo") },
            Action::Finish { failed_at: Some(Phase::Promote) },
        ]
    );
}

#[test]
fn failed_registry_update_removes_the_new_tree_and_restores() {
    let mut world = World::new(&[("/opt/foo", "v1"), ("/opt/foo.tmp", "new")], Some(Phase::Record));
    assert_eq!(world.drive(foo()), Some(Phase::Record));
    assert_eq!(world.tree("/opt/foo"), Some("v1"));
    assert_eq!(world.tree("/opt/foo.old"), None);
    assert_eq!(world.state, State::new());
}

#[test]
fn failed_registry_update_without_backup_leaves_nothing() {
    let mut world = World::new(&[("/opt/foo.tmp", "new")], Some(Phase::Record));
    assert_eq!(world.drive(foo()), Some(Phase::Record));
    assert_eq!(world.tree("/opt/foo"), None);
    assert_eq!(world.tree("/opt/foo.old"), None);
    assert_eq!(world.state, State::new());
    assert_eq!(
        world.seen[world.seen.len() - 2..].to_vec(),
        vec![
            Action::RemoveTree { path: s("/opt/foo") },
            Action::Finish { failed_at: Some(Phase::Record) },
        ]
    );
}

#[test]
fn success_over_existing_drops_the_backup() {
    let mut world = World::new(&[("/opt/foo", "v1"), ("/opt/foo.tmp", "new")], None);
    update_state(&mut world.state, "foo", "0.9", "G");
    assert_eq!(world.drive(foo()), None);
    assert_eq!(world.tree("/opt/foo"), Some("new"));
    assert_eq!(world.tree("/opt/foo.old"), None);
    assert_eq!(world.state.to_json(), "{\"packages\":{\"foo\":{\"0.9\":\"G\",\"1.0\":\"H\"}}}");
}

#[test]
fn failed_backup_undoes_without_restoring() {
    let mut world = World::new(&[("/opt/foo.tmp", "new")], Some(Phase::Backup));
    assert_eq!(world.drive(foo()), Some(Phase::Backup));
    assert_eq!(
        world.seen[world.seen.len() - 2..].to_vec(),
        vec![
            Action::RemoveTree { path: s("/opt/foo") },
            Action::Finish { failed_at: Some(Phase::Backup) },
        ]
    );
    assert_eq!(world.state, State::new());
}

#[test]
fn a_finished_install_stays_finished() {
    let mut t = foo();
    t.advance(Event::Failed);
    assert!(t.is_finished());
    assert_eq!(t.failed_at, Some(Phase::Stage));
    t.advance(Event::Done);
    assert!(t.is_finished());
    assert_eq!(t.action(), Action::Finish { failed_at: Some(Phase::Stage) });
    assert_eq!(Phase::Stage.context(), "Failed to create tmp directory");
}

#[test]
fn each_phase_has_its_context() {
    assert_eq!(Phase::Flatten.context(), "Move failed");
    assert_eq!(Phase::Manifest.context(), "Failed to load manifest");
    assert_eq!(Phase::Backup.context(), "Backup failed");
    assert_eq!(Phase::Promote.context(), "Rename failed");
    assert_eq!(Phase::Record.context(), "State update failed");
    assert_eq!(Phase::Cleanup.context(), "Backup removal failed");
    assert_eq!(Phase::Undo.context(), "Rollback failed");
    assert_eq!(Phase::Restore.context(), "Restore failed");
    assert_eq!(Phase::Finished.context(), "Finished");
}

fn manifest_with_bins(bins: &[&str]) -> Manifest {
    Manifest {
        name: s("foo"),
        version: s("1.0"),
        authors: s("A"),
        license: s("MIT"),
        summary: s(""),
        long: s(""),
        system_specs: IndexMap::new(),
        deps: IndexMap::new(),
        bins: bins.iter().map(|b| s(b)).collect(),
        sandbox: Sandbox { network: false, filesystem: Vec::new(), gui: false, dev: false },
        install_commands: Vec::new(),
    }
}

#[test]
fn removal_unlinks_then_deletes_then_forgets() {
    assert_eq!(
        remove("foo", "1.0", "/opt/foo", &manifest_with_bins(&["foo", "foo-cli"])),
        vec![
            Action::Unlink { path: s("/usr/bin/foo") },
            Action::Unlink { path: s("/usr/bin/foo-cli") },
            Action::RemoveTree { path: s("/opt/foo") },
            Action::ForgetVersion { name: s("foo"), version: s("1.0") },
        ]
    );
    assert_eq!(
        remove("foo", "1.0", "/opt/foo", &manifest_with_bins(&[])),
        vec![
            Action::RemoveTree { path: s("/opt/foo") },
            Action::ForgetVersion { name: s("foo"), version: s("1.0") },
        ]
    );
}

#[test]
fn remove_flushes_entry() {
    let mut world = World::new(&[("/opt/foo.tmp", "new")], None);
    assert_eq!(world.drive(foo()), None);
    for action in remove("foo", "1.0", "/opt/foo", &manifest_with_bins(&["foo"])) {
        assert_ne!(world.perform(&action), Event::Failed);
    }
    assert_eq!(world.tree("/opt/foo"), None);
    assert_eq!(world.state.to_json(), "{\"packages\":{}}");
}

#[test]
fn run_resolves_the_store_path() {
    assert_eq!(
        run(&vec![s("foo"), s("tool")]),
        RunRequest {
            path: s("/usr/lib/HackerOS/hpm/store/foo/current"),
            bin: s("tool"),
            extra_args: Vec::new(),
        }
    );
    assert_eq!(
        run(&vec![s("foo"), s("tool"), s("-v"), s("x")]),
        RunRequest {
            path: s("/usr/lib/HackerOS/hpm/store/foo/current"),
            bin: s("tool"),
            extra_args: vec![s("-v"), s("x")],
        }
    );
}
