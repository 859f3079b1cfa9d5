//! The transactions: what is done, step by step, to install a package, to
//! remove one and to run one, and what is undone where an install fails.
//!
//! A transaction here is a state machine. It names the next thing to do on
//! disk ([`Install::action`]), the driver does it and tells how it went
//! ([`Install::advance`]), until the transaction has ended.

use vstd::prelude::*;
use crate::manifest::Manifest;
use crate::sandbox::STORE_PATH;
use crate::state::{registry_update, Registry};
use crate::text::{followed_by, views};

verus! {

/// How far an install has come.
#[derive(Clone, Copy, Debug, PartialEq, Eq)]
pub enum Phase {
    /// The staging directory is to be made.
    Stage,
    /// A nested `contents` directory is to be flattened.
    Flatten,
    /// The manifest is to be read.
    Manifest,
    /// The staged tree is to be verified against the checksum.
    Verify,
    /// The install commands are to be run in the sandbox.
    Sandbox,
    /// A tree that is already installed is to be moved aside.
    Backup,
    /// The staged tree is to be moved to its final place.
    Promote,
    /// The registry is to be updated.
    Record,
    /// The backup is to be removed.
    Cleanup,
    /// After a failure: what stands at the final place is to be removed.
    Undo,
    /// After a failure: the backup is to be moved back.
    Restore,
    /// Nothing is left to do.
    Finished,
}

/// How the driver fared with an action.
#[derive(Clone, Copy, Debug, PartialEq, Eq)]
pub enum Event {
    /// The action was carried out.
    Done,
    /// There was nothing to carry the action out on: no tree to move aside,
    /// no directory to flatten, nothing to remove.
    Absent,
    /// The action failed.
    Failed,
}

/// Something for the driver to do.
#[derive(Clone, Debug, PartialEq, Eq)]
pub enum Action {
    /// Create the directory `path` and every missing ancestor.
    CreateDirs { path: String },
    /// Where `nested` exists: move each of its children into `dir`, then
    /// remove it.
    Flatten { dir: String, nested: String },
    /// Read the manifest of the tree at `dir`.
    LoadManifest { dir: String },
    /// Verify the tree at `dir` against `checksum`.
    VerifyTree { dir: String, checksum: String },
    /// Run the manifest's install commands on the tree at `dir`, in the sandbox.
    RunSandbox { dir: String },
    /// Where `from` exists: rename it to `to`.
    MoveAside { from: String, to: String },
    /// Rename `from` to `to`.
    Rename { from: String, to: String },
    /// Record the version with its checksum in the registry, and save it.
    RecordVersion { name: String, version: String, checksum: String },
    /// Remove `path` and everything beneath it, where it exists.
    RemoveTree { path: String },
    /// Remove the file `path`; that it cannot be removed is no failure.
    Unlink { path: String },
    /// Forget the version in the registry, and save it.
    ForgetVersion { name: String, version: String },
    /// The transaction has ended: well, or with a failure in the given phase.
    Finish { failed_at: Option<Phase> },
}

/// The mathematical value of an [`Action`].
pub enum ActionView {
    CreateDirs { path: Seq<char> },
    Flatten { dir: Seq<char>, nested: Seq<char> },
    LoadManifest { dir: Seq<char> },
    VerifyTree { dir: Seq<char>, checksum: Seq<char> },
    RunSandbox { dir: Seq<char> },
    MoveAside { from: Seq<char>, to: Seq<char> },
    Rename { from: Seq<char>, to: Seq<char> },
    RecordVersion { name: Seq<char>, version: Seq<char>, checksum: Seq<char> },
    RemoveTree { path: Seq<char> },
    Unlink { path: Seq<char> },
    ForgetVersion { name: Seq<char>, version: Seq<char> },
    Finish { failed_at: Option<Phase> },
}

impl View for Action {
    type V = ActionView;

    open spec fn view(&self) -> ActionView {
        match *self {
            Action::CreateDirs { path } => ActionView::CreateDirs { path: path@ },
            Action::Flatten { dir, nested } => ActionView::Flatten { dir: dir@, nested: nested@ },
            Action::LoadManifest { dir } => ActionView::LoadManifest { dir: dir@ },
            Action::VerifyTree { dir, checksum } => ActionView::VerifyTree {
                dir: dir@,
                checksum: checksum@,
            },
            Action::RunSandbox { dir } => ActionView::RunSandbox { dir: dir@ },
            Action::MoveAside { from, to } => ActionView::MoveAside { from: from@, to: to@ },
            Action::Rename { from, to } => ActionView::Rename { from: from@, to: to@ },
            Action::RecordVersion { name, version, checksum } => ActionView::RecordVersion {
                name: name@,
                version: version@,
                checksum: checksum@,
            },
            Action::RemoveTree { path } => ActionView::RemoveTree { path: path@ },
            Action::Unlink { path } => ActionView::Unlink { path: path@ },
            Action::ForgetVersion { name, version } => ActionView::ForgetVersion {
                name: name@,
                version: version@,
            },
            Action::Finish { failed_at } => ActionView::Finish { failed_at },
        }
    }
}

/// An install under way.
#[derive(Clone, Debug, PartialEq, Eq)]
pub struct Install {
    pub name: String,
    pub version: String,
    /// Where the package is to stand in the end.
    pub final_path: String,
    /// The checksum that the staged tree must have.
    pub checksum: String,
    pub phase: Phase,
    /// Whether a tree that was already installed has been moved aside.
    pub backed_up: bool,
    /// The phase in which the install failed, if it did.
    pub failed_at: Option<Phase>,
}

/// The mathematical value of an [`Install`].
pub struct InstallView {
    pub name: Seq<char>,
    pub version: Seq<char>,
    pub final_path: Seq<char>,
    pub checksum: Seq<char>,
    pub phase: Phase,
    pub backed_up: bool,
    pub failed_at: Option<Phase>,
}

impl View for Install {
    type V = InstallView;

    open spec fn view(&self) -> InstallView {
        InstallView {
            name: self.name@,
            version: self.version@,
            final_path: self.final_path@,
            checksum: self.checksum@,
            phase: self.phase,
            backed_up: self.backed_up,
            failed_at: self.failed_at,
        }
    }
}

/// Where a package is staged before it is installed at `path`.
pub open spec fn staging_path(path: Seq<char>) -> Seq<char> {
    path + ".tmp"@
}

/// Where a tree that is already installed at `path` is kept while a new one
/// takes its place.
pub open spec fn backup_path(path: Seq<char>) -> Seq<char> {
    path + ".old"@
}

/// An install at its start.
pub open spec fn install_start(
    name: Seq<char>,
    version: Seq<char>,
    path: Seq<char>,
    checksum: Seq<char>,
) -> InstallView {
    InstallView {
        name,
        version,
        final_path: path,
        checksum,
        phase: Phase::Stage,
        backed_up: false,
        failed_at: None,
    }
}

/// What an install asks for in its present phase.
pub open spec fn install_action(s: InstallView) -> ActionView {
    match s.phase {
        Phase::Stage => ActionView::CreateDirs { path: staging_path(s.final_path) },
        Phase::Flatten => ActionView::Flatten {
            dir: staging_path(s.final_path),
            nested: staging_path(s.final_path) + "/contents"@,
        },
        Phase::Manifest => ActionView::LoadManifest { dir: staging_path(s.final_path) },
        Phase::Verify => ActionView::VerifyTree {
            dir: staging_path(s.final_path),
            checksum: s.checksum,
        },
        Phase::Sandbox => ActionView::RunSandbox { dir: staging_path(s.final_path) },
        Phase::Backup => ActionView::MoveAside {
            from: s.final_path,
            to: backup_path(s.final_path),
        },
        Phase::Promote => ActionView::Rename {
            from: staging_path(s.final_path),
            to: s.final_path,
        },
        Phase::Record => ActionView::RecordVersion {
            name: s.name,
            version: s.version,
            checksum: s.checksum,
        },
        Phase::Cleanup => ActionView::RemoveTree { path: backup_path(s.final_path) },
        Phase::Undo => ActionView::RemoveTree { path: s.final_path },
        Phase::Restore => ActionView::Rename { from: backup_path(s.final_path), to: s.final_path },
        Phase::Finished => ActionView::Finish { failed_at: s.failed_at },
    }
}

/// The install as it ends after a failure in its present phase.
pub open spec fn install_abandoned(s: InstallView) -> InstallView {
    InstallView { phase: Phase::Finished, failed_at: Some(s.phase), ..s }
}

/// The install as it starts to undo itself after a failure in its present phase.
pub open spec fn install_undoing(s: InstallView) -> InstallView {
    InstallView { phase: Phase::Undo, failed_at: Some(s.phase), ..s }
}

/// The install in another phase.
pub open spec fn install_at(s: InstallView, phase: Phase) -> InstallView {
    InstallView { phase, ..s }
}

/// The install after the driver has told how the present action went.
///
/// Up to the sandbox a failure ends the install at once: nothing was
/// changed yet. From the backup on, a failure makes the install undo itself:
/// what stands at the final place is removed, and the backup, if one was
/// made, is moved back. The removal of the backup after a success, and the
/// two steps of undoing, are taken however the one before went.
pub open spec fn install_next(s: InstallView, e: Event) -> InstallView {
    match s.phase {
        Phase::Stage => if e == Event::Failed {
            install_abandoned(s)
        } else {
            install_at(s, Phase::Flatten)
        },
        Phase::Flatten => if e == Event::Failed {
            install_abandoned(s)
        } else {
            install_at(s, Phase::Manifest)
        },
        Phase::Manifest => if e == Event::Failed {
            install_abandoned(s)
        } else {
            install_at(s, Phase::Verify)
        },
        Phase::Verify => if e == Event::Failed {
            install_abandoned(s)
        } else {
            install_at(s, Phase::Sandbox)
        },
        Phase::Sandbox => if e == Event::Failed {
            install_abandoned(s)
        } else {
            install_at(s, Phase::Backup)
        },
        Phase::Backup => match e {
            Event::Failed => install_undoing(s),
            Event::Done => InstallView { phase: Phase::Promote, backed_up: true, ..s },
            Event::Absent => install_at(s, Phase::Promote),
        },
        Phase::Promote => if e == Event::Failed {
            install_undoing(s)
        } else {
            install_at(s, Phase::Record)
        },
        Phase::Record => if e == Event::Failed {
            install_undoing(s)
        } else {
            install_at(s, Phase::Cleanup)
        },
        Phase::Cleanup => install_at(s, Phase::Finished),
        Phase::Undo => if s.backed_up {
            install_at(s, Phase::Restore)
        } else {
            install_at(s, Phase::Finished)
        },
        Phase::Restore => install_at(s, Phase::Finished),
        Phase::Finished => s,
    }
}

/// Begins the install of `version` of `package_name` at `path`; the tree is
/// staged at `path` with `.tmp` behind it and must have the checksum `checksum`.
pub fn install(package_name: &str, version: &str, path: &str, checksum: &str) -> (s: Install)
    ensures
        s@ == install_start(package_name@, version@, path@, checksum@),
{
    Install {
        name: package_name.to_string(),
        version: version.to_string(),
        final_path: path.to_string(),
        checksum: checksum.to_string(),
        phase: Phase::Stage,
        backed_up: false,
        failed_at: None,
    }
}

impl Install {
    /// What is to be done next.
    pub fn action(&self) -> (a: Action)
        ensures
            a@ == install_action(self@),
    {
        let path = self.final_path.as_str();
        match self.phase {
            Phase::Stage => Action::CreateDirs { path: followed_by(path, ".tmp") },
            Phase::Flatten => {
                let dir = followed_by(path, ".tmp");
                let nested = followed_by(dir.as_str(), "/contents");
                Action::Flatten { dir, nested }
            },
            Phase::Manifest => Action::LoadManifest { dir: followed_by(path, ".tmp") },
            Phase::Verify => Action::VerifyTree {
                dir: followed_by(path, ".tmp"),
                checksum: self.checksum.clone(),
            },
            Phase::Sandbox => Action::RunSandbox { dir: followed_by(path, ".tmp") },
            Phase::Backup => Action::MoveAside {
                from: self.final_path.clone(),
                to: followed_by(path, ".old"),
            },
            Phase::Promote => Action::Rename {
                from: followed_by(path, ".tmp"),
                to: self.final_path.clone(),
            },
            Phase::Record => Action::RecordVersion {
                name: self.name.clone(),
                version: self.version.clone(),
                checksum: self.checksum.clone(),
            },
            Phase::Cleanup => Action::RemoveTree { path: followed_by(path, ".old") },
            Phase::Undo => Action::RemoveTree { path: self.final_path.clone() },
            Phase::Restore => Action::Rename {
                from: followed_by(path, ".old"),
                to: self.final_path.clone(),
            },
            Phase::Finished => Action::Finish { failed_at: self.failed_at },
        }
    }

    /// Takes note of how the present action went, and moves on.
    pub fn advance(&mut self, event: Event)
        ensures
            final(self)@ == install_next(old(self)@, event),
    {
        let failed = match event {
            Event::Failed => true,
            _ => false,
        };
        match self.phase {
            Phase::Stage | Phase::Flatten | Phase::Manifest | Phase::Verify | Phase::Sandbox => {
                if failed {
                    self.failed_at = Some(self.phase);
                    self.phase = Phase::Finished;
                } else {
                    self.phase = match self.phase {
                        Phase::Stage => Phase::Flatten,
                        Phase::Flatten => Phase::Manifest,
                        Phase::Manifest => Phase::Verify,
                        Phase::Verify => Phase::Sandbox,
                        _ => Phase::Backup,
                    };
                }
            },
            Phase::Backup | Phase::Promote | Phase::Record => {
                if failed {
                    self.failed_at = Some(self.phase);
                    self.phase = Phase::Undo;
                } else {
                    match self.phase {
                        Phase::Backup => {
                            match event {
                                Event::Done => {
                                    self.backed_up = true;
                                },
                                _ => {},
                            }
                            self.phase = Phase::Promote;
                        },
                        Phase::Promote => {
                            self.phase = Phase::Record;
                        },
                        _ => {
                            self.phase = Phase::Cleanup;
                        },
                    }
                }
            },
            Phase::Cleanup => {
                self.phase = Phase::Finished;
            },
            Phase::Undo => {
                if self.backed_up {
                    self.phase = Phase::Restore;
                } else {
                    self.phase = Phase::Finished;
                }
            },
            Phase::Restore => {
                self.phase = Phase::Finished;
            },
            Phase::Finished => {},
        }
    }

    /// Whether nothing is left to do.
    pub fn is_finished(&self) -> (r: bool)
        ensures
            r == (self@.phase == Phase::Finished),
    {
        match self.phase {
            Phase::Finished => true,
            _ => false,
        }
    }
}

/// What stands on disk at one place: the files of a tree.
pub type Tree = Seq<crate::verify::FileView>;

/// The part of the system that an install can change: the tree at the final
/// place, the tree at the backup place, the staged tree, and the registry.
pub struct World {
    pub live: Option<Tree>,
    pub backup: Option<Tree>,
    pub staged: Option<Tree>,
    pub registry: Registry,
}

/// How the world may differ after the present action of an install was
/// tried with the outcome `e`: a rename moves a tree or leaves everything as
/// it was; so does a removal, but that one which fails may have removed a
/// part; saving the registry replaces it or leaves it as it was. Up to the
/// sandbox only the staged tree can change.
pub open spec fn follows(s: InstallView, e: Event, w: World, after: World) -> bool {
    match s.phase {
        Phase::Stage | Phase::Flatten | Phase::Manifest | Phase::Verify | Phase::Sandbox => {
            after.live == w.live && after.backup == w.backup && after.registry == w.registry
        },
        Phase::Backup => match e {
            Event::Done => w.live.is_some() && after == World { live: None, backup: w.live, ..w },
            Event::Absent => w.live.is_none() && after == w,
            Event::Failed => after == w,
        },
        Phase::Promote => if e == Event::Failed {
            after == w
        } else {
            after == World { live: w.staged, staged: None, ..w }
        },
        Phase::Record => if e == Event::Failed {
            after == w
        } else {
            after == World {
                registry: registry_update(w.registry, s.name, s.version, s.checksum),
                ..w
            }
        },
        Phase::Cleanup => match e {
            Event::Done => after == World { backup: None, ..w },
            Event::Absent => w.backup.is_none() && after == w,
            Event::Failed => after.live == w.live && after.staged == w.staged && after.registry
                == w.registry,
        },
        Phase::Undo => match e {
            Event::Done => after == World { live: None, ..w },
            Event::Absent => w.live.is_none() && after == w,
            Event::Failed => after.backup == w.backup && after.staged == w.staged
                && after.registry == w.registry,
        },
        Phase::Restore => if e == Event::Failed {
            after == w
        } else {
            after == World { live: w.backup, backup: None, ..w }
        },
        Phase::Finished => after == w,
    }
}

/// Whether `steps`, each an outcome with the world after it, is a course
/// that an install in state `s` can take from the world `w`.
pub open spec fn possible_course(s: InstallView, w: World, steps: Seq<(Event, World)>) -> bool
    decreases steps.len(),
{
    steps.len() == 0 || (follows(s, steps[0].0, w, steps[0].1) && possible_course(
        install_next(s, steps[0].0),
        steps[0].1,
        steps.drop_first(),
    ))
}

/// Whether, on the course `steps`, the move of the installed tree to its
/// backup place and the two steps of undoing never fail.
pub open spec fn undo_unhindered(s: InstallView, steps: Seq<Event>) -> bool
    decreases steps.len(),
{
    steps.len() == 0 || (!(steps[0] == Event::Failed && (s.phase == Phase::Backup || s.phase
        == Phase::Undo || s.phase == Phase::Restore)) && undo_unhindered(
        install_next(s, steps[0]),
        steps.drop_first(),
    ))
}

/// The outcomes of a course.
pub open spec fn events_of(steps: Seq<(Event, World)>) -> Seq<Event> {
    steps.map_values(|step: (Event, World)| step.0)
}

/// The install after the outcomes `events`.
pub open spec fn install_after(s: InstallView, events: Seq<Event>) -> InstallView
    decreases events.len(),
{
    if events.len() == 0 {
        s
    } else {
        install_after(install_next(s, events[0]), events.drop_first())
    }
}

/// The world at the end of a course.
pub open spec fn world_after(w: World, steps: Seq<(Event, World)>) -> World {
    if steps.len() == 0 {
        w
    } else {
        steps.last().1
    }
}

/// What holds between an install, the world, and the world `w0` in which the
/// install began, as long as undoing is not hindered.
pub open spec fn on_track(s: InstallView, w: World, w0: World) -> bool {
    let same_registry = w.registry == w0.registry;
    let backup_holds_former = if s.backed_up {
        w.backup == w0.live
    } else {
        w0.live.is_none()
    };
    match s.phase {
        Phase::Stage | Phase::Flatten | Phase::Manifest | Phase::Verify | Phase::Sandbox
        | Phase::Backup => s.failed_at.is_none() && !s.backed_up && w.live == w0.live
            && same_registry,
        Phase::Promote => s.failed_at.is_none() && same_registry && backup_holds_former
            && w.live.is_none(),
        Phase::Record => s.failed_at.is_none() && same_registry && backup_holds_former,
        Phase::Cleanup => s.failed_at.is_none() && w.registry == registry_update(
            w0.registry,
            s.name,
            s.version,
            s.checksum,
        ),
        Phase::Undo => s.failed_at.is_some() && same_registry && backup_holds_former,
        Phase::Restore => s.failed_at.is_some() && same_registry && s.backed_up && w.backup
            == w0.live && w.live.is_none(),
        Phase::Finished => if s.failed_at.is_some() {
            w.live == w0.live && same_registry
        } else {
            w.registry == registry_update(w0.registry, s.name, s.version, s.checksum)
        },
    }
}

/// One step keeps an install on track.
proof fn lemma_step_on_track(s: InstallView, w: World, w0: World, e: Event, after: World)
    requires
        on_track(s, w, w0),
        follows(s, e, w, after),
        !(e == Event::Failed && (s.phase == Phase::Backup || s.phase == Phase::Undo || s.phase
            == Phase::Restore)),
    ensures
        on_track(install_next(s, e), after, w0),
        install_next(s, e).name == s.name,
        install_next(s, e).version == s.version,
        install_next(s, e).checksum == s.checksum,
{
}

/// A whole course keeps an install on track.
proof fn lemma_course_on_track(s: InstallView, w: World, w0: World, steps: Seq<(Event, World)>)
    requires
        on_track(s, w, w0),
        possible_course(s, w, steps),
        undo_unhindered(s, events_of(steps)),
    ensures
        on_track(install_after(s, events_of(steps)), world_after(w, steps), w0),
        install_after(s, events_of(steps)).name == s.name,
        install_after(s, events_of(steps)).version == s.version,
        install_after(s, events_of(steps)).checksum == s.checksum,
    decreases steps.len(),
{
    if steps.len() > 0 {
        let e = steps[0].0;
        let after = steps[0].1;
        let rest = steps.drop_first();
        assert(events_of(steps)[0] == e);
        assert(events_of(steps).drop_first() =~= events_of(rest));
        lemma_step_on_track(s, w, w0, e, after);
        lemma_course_on_track(install_next(s, e), after, w0, rest);
        if rest.len() > 0 {
            assert(rest.last() == steps.last());
        }
    } else {
        assert(events_of(steps) =~= Seq::<Event>::empty());
    }
}

/// The tree that a course moves to the final place: the staged tree as it
/// stands when the install promotes it. `None` where the course does not
/// come to promote a tree, or promotes where nothing is staged.
pub open spec fn promoted_tree(s: InstallView, w: World, steps: Seq<(Event, World)>) -> Option<
    Tree,
>
    decreases steps.len(),
{
    if steps.len() == 0 {
        None
    } else if s.phase == Phase::Promote && steps[0].0 != Event::Failed {
        w.staged
    } else {
        promoted_tree(install_next(s, steps[0].0), steps[0].1, steps.drop_first())
    }
}

/// An install that has failed stays failed.
proof fn lemma_failure_sticks(s: InstallView, events: Seq<Event>)
    requires
        s.failed_at.is_some(),
    ensures
        install_after(s, events).failed_at.is_some(),
    decreases events.len(),
{
    if events.len() > 0 {
        lemma_failure_sticks(install_next(s, events[0]), events.drop_first());
    }
}

/// Once the staged tree stands at the final place, an install that ends
/// well leaves it there.
proof fn lemma_live_kept_after_promotion(
    s: InstallView,
    w: World,
    steps: Seq<(Event, World)>,
    tree: Option<Tree>,
)
    requires
        s.phase == Phase::Record || s.phase == Phase::Cleanup || s.phase == Phase::Finished,
        s.failed_at.is_none(),
        w.live == tree,
        possible_course(s, w, steps),
    ensures
        install_after(s, events_of(steps)).failed_at.is_none() ==> world_after(w, steps).live
            == tree,
    decreases steps.len(),
{
    if steps.len() > 0 {
        let e = steps[0].0;
        let after = steps[0].1;
        let rest = steps.drop_first();
        let next = install_next(s, e);
        assert(events_of(steps)[0] == e);
        assert(events_of(steps).drop_first() =~= events_of(rest));
        if rest.len() > 0 {
            assert(rest.last() == steps.last());
        }
        if next.failed_at.is_some() {
            lemma_failure_sticks(next, events_of(rest));
        } else {
            lemma_live_kept_after_promotion(next, after, rest, tree);
        }
    } else {
        assert(events_of(steps) =~= Seq::<Event>::empty());
    }
}

/// An install that ends well leaves at the final place the tree that it promoted.
proof fn lemma_promoted_tree_is_live(s: InstallView, w: World, steps: Seq<(Event, World)>)
    requires
        s.phase == Phase::Stage || s.phase == Phase::Flatten || s.phase == Phase::Manifest
            || s.phase == Phase::Verify || s.phase == Phase::Sandbox || s.phase == Phase::Backup
            || s.phase == Phase::Promote,
        s.failed_at.is_none(),
        possible_course(s, w, steps),
    ensures
        install_after(s, events_of(steps)).phase == Phase::Finished && install_after(
            s,
            events_of(steps),
        ).failed_at.is_none() ==> world_after(w, steps).live == promoted_tree(s, w, steps),
    decreases steps.len(),
{
    if steps.len() > 0 {
        let e = steps[0].0;
        let after = steps[0].1;
        let rest = steps.drop_first();
        let next = install_next(s, e);
        assert(events_of(steps)[0] == e);
        assert(events_of(steps).drop_first() =~= events_of(rest));
        if rest.len() > 0 {
            assert(rest.last() == steps.last());
        }
        if next.failed_at.is_some() {
            lemma_failure_sticks(next, events_of(rest));
        } else if s.phase == Phase::Promote {
            lemma_live_kept_after_promotion(next, after, rest, w.staged);
        } else {
            lemma_promoted_tree_is_live(next, after, rest);
        }
    } else {
        assert(events_of(steps) =~= Seq::<Event>::empty());
    }
}

/// An install that has ended leaves one of two worlds behind. Where it
/// failed, the tree at the final place and the registry are what they were
/// before it began. Where it succeeded, the tree that it promoted stands at
/// the final place and the registry holds the new version.
///
/// The first holds of every course on which the move of the installed
/// tree to its backup place and the steps of undoing do not themselves
/// fail; the second of every course.
pub proof fn lemma_install_all_or_nothing(
    name: Seq<char>,
    version: Seq<char>,
    path: Seq<char>,
    checksum: Seq<char>,
    w0: World,
    steps: Seq<(Event, World)>,
)
    requires
        possible_course(install_start(name, version, path, checksum), w0, steps),
        install_after(install_start(name, version, path, checksum), events_of(steps)).phase
            == Phase::Finished,
    ensures
        ({
            let start = install_start(name, version, path, checksum);
            let end = install_after(start, events_of(steps));
            let w = world_after(w0, steps);
            &&& end.failed_at.is_some() && undo_unhindered(start, events_of(steps)) ==> w.live
                == w0.live && w.registry == w0.registry
            &&& end.failed_at.is_none() ==> w.live == promoted_tree(start, w0, steps) && w.registry
                == registry_update(w0.registry, name, version, checksum)
        }),
{
    let start = install_start(name, version, path, checksum);
    lemma_promoted_tree_is_live(start, w0, steps);
    if install_after(start, events_of(steps)).failed_at.is_none() {
        lemma_success_is_unhindered(start, events_of(steps));
    }
    if undo_unhindered(start, events_of(steps)) {
        lemma_course_on_track(start, w0, w0, steps);
    }
}

/// A course that ends well has met no failure from the backup on, and so
/// none in the steps of undoing.
proof fn lemma_success_is_unhindered(s: InstallView, events: Seq<Event>)
    requires
        s.failed_at.is_none(),
        s.phase != Phase::Undo && s.phase != Phase::Restore,
        install_after(s, events).failed_at.is_none(),
    ensures
        undo_unhindered(s, events),
    decreases events.len(),
{
    if events.len() > 0 {
        let next = install_next(s, events[0]);
        if next.failed_at.is_some() {
            lemma_failure_sticks(next, events.drop_first());
        } else {
            lemma_success_is_unhindered(next, events.drop_first());
        }
    }
}

/// The views of a vector of actions.
pub open spec fn action_views(v: Seq<Action>) -> Seq<ActionView> {
    v.map_values(|a: Action| a@)
}

/// Where the link to a package's binary stands.
pub open spec fn link_path(bin: Seq<char>) -> Seq<char> {
    "/usr/bin/"@ + bin
}

/// What removing a package takes, in order: the links to its binaries go,
/// whether they are there or not; then its tree; then its entry in the registry.
pub open spec fn removal_plan(
    name: Seq<char>,
    version: Seq<char>,
    path: Seq<char>,
    bins: Seq<Seq<char>>,
) -> Seq<ActionView> {
    bins.map_values(|b: Seq<char>| ActionView::Unlink { path: link_path(b) }) + seq![
        ActionView::RemoveTree { path },
        ActionView::ForgetVersion { name, version },
    ]
}

/// Plans the removal of `version` of `package_name`, whose tree stands at
/// `path` and has the manifest `manifest`. The driver takes the actions in
/// order and gives up at the first that fails.
pub fn remove(package_name: &str, version: &str, path: &str, manifest: &Manifest) -> (plan: Vec<
    Action,
>)
    ensures
        action_views(plan@) == removal_plan(package_name@, version@, path@, manifest@.bins),
{
    let ghost links = manifest@.bins.map_values(
        |b: Seq<char>| ActionView::Unlink { path: link_path(b) },
    );
    let mut plan: Vec<Action> = Vec::new();
    let mut i: usize = 0;
    while i < manifest.bins.len()
        invariant
            i <= manifest.bins.len(),
            links == manifest@.bins.map_values(
                |b: Seq<char>| ActionView::Unlink { path: link_path(b) },
            ),
            action_views(plan@) == links.take(i as int),
        decreases manifest.bins.len() - i,
    {
        let ghost before = action_views(plan@);
        let link = Action::Unlink { path: followed_by("/usr/bin/", manifest.bins[i].as_str()) };
        plan.push(link);
        assert(action_views(plan@) =~= before.push(link@));
        assert(links.take(i + 1) =~= links.take(i as int).push(links[i as int]));
        i += 1;
    }
    assert(links.take(manifest.bins@.len() as int) =~= links);
    let ghost before = action_views(plan@);
    let tree = Action::RemoveTree { path: path.to_string() };
    let entry = Action::ForgetVersion {
        name: package_name.to_string(),
        version: version.to_string(),
    };
    plan.push(tree);
    plan.push(entry);
    assert(action_views(plan@) =~= before + seq![tree@, entry@]);
    plan
}

/// What is to be run: the binary `bin` of the package whose tree stands at
/// `path`, with the arguments `extra_args`.
#[derive(Clone, Debug, PartialEq, Eq)]
pub struct RunRequest {
    pub path: String,
    pub bin: String,
    pub extra_args: Vec<String>,
}

/// Where the installed tree of a package stands in the store.
pub open spec fn store_path(name: Seq<char>) -> Seq<char> {
    STORE_PATH@ + name + "/current"@
}

/// Reads the arguments of a run: the package, the binary, and what is
/// handed on to the binary. The package's tree is the one in the store.
pub fn run(args: &Vec<String>) -> (r: RunRequest)
    requires
        args@.len() >= 2,
    ensures
        r.path@ == store_path(args@[0]@),
        r.bin@ == args@[1]@,
        views(r.extra_args@) == views(args@).skip(2),
{
    let mut path = followed_by(STORE_PATH, args[0].as_str());
    path.append("/current");
    let mut extra_args: Vec<String> = Vec::new();
    let mut i: usize = 2;
    while i < args.len()
        invariant
            2 <= i <= args.len(),
            views(extra_args@) == views(args@).subrange(2, i as int),
        decreases args.len() - i,
    {
        let ghost before = views(extra_args@);
        extra_args.push(args[i].clone());
        assert(views(extra_args@) =~= before.push(args@[i as int]@));
        assert(views(args@).subrange(2, i + 1) =~= views(args@).subrange(2, i as int).push(
            args@[i as int]@,
        ));
        i += 1;
    }
    assert(views(args@).subrange(2, args@.len() as int) =~= views(args@).skip(2));
    RunRequest { path, bin: args[1].clone(), extra_args }
}

/// What went wrong when an install failed in the given phase.
pub open spec fn phase_context(phase: Phase) -> Seq<char> {
    match phase {
        Phase::Stage => "Failed to create tmp directory"@,
        Phase::Flatten => "Move failed"@,
        Phase::Manifest => "Failed to load manifest"@,
        Phase::Verify => "Verification failed"@,
        Phase::Sandbox => "Sandbox setup failed"@,
        Phase::Backup => "Backup failed"@,
        Phase::Promote => "Rename failed"@,
        Phase::Record => "State update failed"@,
        Phase::Cleanup => "Backup removal failed"@,
        Phase::Undo => "Rollback failed"@,
        Phase::Restore => "Restore failed"@,
        Phase::Finished => "Finished"@,
    }
}

impl Phase {
    /// What went wrong when an install failed in this phase.
    pub fn context(self) -> (text: &'static str)
        ensures
            text@ == phase_context(self),
    {
        match self {
            Phase::Stage => "Failed to create tmp directory",
            Phase::Flatten => "Move failed",
            Phase::Manifest => "Failed to load manifest",
            Phase::Verify => "Verification failed",
            Phase::Sandbox => "Sandbox setup failed",
            Phase::Backup => "Backup failed",
            Phase::Promote => "Rename failed",
            Phase::Record => "State update failed",
            Phase::Cleanup => "Backup removal failed",
            Phase::Undo => "Rollback failed",
            Phase::Restore => "Restore failed",
            Phase::Finished => "Finished",
        }
    }
}

} // verus!
