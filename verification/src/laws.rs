//! What holds of the supervisor whatever the host reports.
//!
//! The laws are stated of the state machine of [`crate::lifecycle`], which
//! the executable supervisor follows move for move.

use vstd::prelude::*;

use crate::error::ErrorKind;
use crate::host::EffectModel;
use crate::host::NextModel;
use crate::host::OutcomeModel;
use crate::image::validation;
use crate::lifecycle::died_during_boot;
use crate::lifecycle::stat_at;
use crate::lifecycle::timed_out;
use crate::lifecycle::reading;
use crate::lifecycle::ContainerModel;
use crate::lifecycle::Phase;
use crate::lifecycle::Stage;
use crate::text::has_prefix;
use crate::tools::fusermount;
use crate::tools::unmount_failure;
use crate::tools::Attempt;

verus! {

/// The container and what comes next once the host has reported `outcomes`
/// one after another. Outcomes behind the end of the operation are not
/// looked at.
pub open spec fn run(start: (ContainerModel, NextModel), outcomes: Seq<OutcomeModel>) -> (
    ContainerModel,
    NextModel,
)
    decreases outcomes.len(),
{
    if outcomes.len() == 0 || start.1.ended() {
        start
    } else {
        run(start.0.resume(outcomes[0]), outcomes.drop_first())
    }
}

/// The effects that the host performed on the way, one for each outcome that
/// was looked at.
pub open spec fn performed(start: (ContainerModel, NextModel), outcomes: Seq<OutcomeModel>) -> Seq<
    EffectModel,
>
    decreases outcomes.len(),
{
    match start.1 {
        NextModel::Perform(effect) => if outcomes.len() == 0 {
            Seq::empty()
        } else {
            seq![effect] + performed(start.0.resume(outcomes[0]), outcomes.drop_first())
        },
        _ => Seq::empty(),
    }
}

/// Whether, on the way, the last of the three attempts to unmount the vendor
/// image failed.
pub open spec fn vendor_resisted(
    start: (ContainerModel, NextModel),
    outcomes: Seq<OutcomeModel>,
) -> bool
    decreases outcomes.len(),
{
    start.1 is Perform && outcomes.len() > 0 && ((start.0.stage == Stage::UnmountingVendor(
        Attempt::Lazy,
    ) && !outcomes[0].ran_well()) || vendor_resisted(
        start.0.resume(outcomes[0]),
        outcomes.drop_first(),
    ))
}

/// Whether, on the way, the last of the three attempts to unmount the system
/// image failed.
pub open spec fn system_resisted(
    start: (ContainerModel, NextModel),
    outcomes: Seq<OutcomeModel>,
) -> bool
    decreases outcomes.len(),
{
    start.1 is Perform && outcomes.len() > 0 && ((start.0.stage == Stage::UnmountingSystem(
        Attempt::Lazy,
    ) && !outcomes[0].ran_well()) || system_resisted(
        start.0.resume(outcomes[0]),
        outcomes.drop_first(),
    ))
}

/// An attempt to unmount the directory `mount_point`.
pub open spec fn is_unmount_of(effect: EffectModel, mount_point: Seq<char>) -> bool {
    exists|attempt: Attempt| effect == EffectModel::Run(fusermount(attempt, mount_point))
}

/// A start against images that are not there, or against a system image that
/// is too small, fails with an image error, and it fails on the first thing
/// the host reports: the look at the images. No directory was asked for, no
/// image mounted and no process made, and the container is as it was.
pub proof fn law_start_without_images(container: ContainerModel, found: OutcomeModel)
    requires
        validation(container.images, stat_at(found, 0), stat_at(found, 1)) is Some,
    ensures
        container.start().1 is Perform,
        container.start().1->Perform_0 is Stat,
        run(container.start(), seq![found]).1 is Failed,
        run(container.start(), seq![found]).1->Failed_0.kind.is_image(),
        !stat_at(found, 0).exists || !stat_at(found, 1).exists ==> run(
            container.start(),
            seq![found],
        ).1->Failed_0.kind == ErrorKind::ImageNotFound,
        run(container.start(), seq![found]).0 == container.idle(),
        performed(container.start(), seq![found]) == seq![container.start().1->Perform_0],
{
    let outcomes = seq![found];
    let first = container.start();
    let second = first.0.resume(found);
    assert(outcomes[0] == found);
    assert(outcomes.drop_first() =~= Seq::<OutcomeModel>::empty());
    assert(run(first, outcomes) == run(second, outcomes.drop_first()));
    assert(run(second, Seq::<OutcomeModel>::empty()) == second);
    assert(performed(second, Seq::<OutcomeModel>::empty()) =~= Seq::<EffectModel>::empty());
    assert(performed(first, outcomes) =~= seq![first.1->Perform_0]);
}

/// The stages of a start up to the mounting of the images.
spec fn before_assembly(stage: Stage) -> bool {
    stage is Validating || stage is CreatingDirs || stage is MountingSystem
        || stage is MountingVendor || stage is Releasing
}

/// The stages of a start behind the mounting of the images.
spec fn after_mounting(stage: Stage) -> bool {
    stage is ListingApex || stage is PreparingUpper || stage is WritingLinkerConfig
        || stage is ProbingInit || stage is Spawning || stage is Settling || stage is CheckingInit
        || stage is CollectingOutput || stage is PersistingPid
}

/// What holds of a container while it starts: the vendor image is mounted
/// only behind the mounting stages, and the system image is not mounted
/// before its turn.
spec fn starting(container: ContainerModel) -> bool {
    &&& before_assembly(container.stage) || after_mounting(container.stage)
    &&& before_assembly(container.stage) ==> !container.vendor_mounted
    &&& container.stage is Validating || container.stage is CreatingDirs
        || container.stage is MountingSystem ==> !container.system_mounted
}

/// What holds at the end of a start that failed for a mount.
spec fn nothing_left_mounted(end: (ContainerModel, NextModel)) -> bool {
    end.1 matches NextModel::Failed(error) && error.kind == ErrorKind::Mount
        ==> !end.0.system_mounted && !end.0.vendor_mounted
}

proof fn lemma_start_leaves_no_mount(
    start: (ContainerModel, NextModel),
    outcomes: Seq<OutcomeModel>,
)
    requires
        start.1 is Perform,
        starting(start.0),
    ensures
        nothing_left_mounted(run(start, outcomes)),
    decreases outcomes.len(),
{
    if outcomes.len() > 0 {
        let step = start.0.resume(outcomes[0]);
        if step.1 is Perform {
            lemma_start_leaves_no_mount(step, outcomes.drop_first());
        } else {
            assert(run(step, outcomes.drop_first()) == step);
        }
    }
}

/// Whatever the host reports during a start: if the start fails because an
/// image could not be mounted, no image is mounted when it ends. So a vendor
/// image that cannot be mounted never leaves the system image mounted.
pub proof fn law_failed_mount_leaves_nothing_mounted(
    container: ContainerModel,
    outcomes: Seq<OutcomeModel>,
)
    requires
        !container.system_mounted,
        !container.vendor_mounted,
    ensures
        run(container.start(), outcomes).1 matches NextModel::Failed(error) && error.kind
            == ErrorKind::Mount ==> !run(container.start(), outcomes).0.system_mounted && !run(
            container.start(),
            outcomes,
        ).0.vendor_mounted,
{
    lemma_start_leaves_no_mount(container.start(), outcomes);
}

/// When the vendor image cannot be mounted, the start gives the system image
/// up before it reports the failure: the very next effect is an attempt to
/// unmount it, nothing but such attempts follows, at most three of them, and
/// then the start has failed for the mount with the system image no longer
/// marked as mounted.
pub proof fn law_vendor_failure_releases_system(
    container: ContainerModel,
    outcomes: Seq<OutcomeModel>,
)
    requires
        container.stage == Stage::MountingVendor,
        outcomes.len() >= 4,
        !outcomes[0].ran_well(),
    ensures
        ({
            let begin = (container, container.fuse_mount_images().1);
            let end = run(begin, outcomes);
            let effects = performed(begin, outcomes);
            &&& end.1 matches NextModel::Failed(error) && error.kind == ErrorKind::Mount
            &&& !end.0.system_mounted
            &&& end.0.vendor_mounted == container.vendor_mounted
            &&& end.0.init_pid == container.init_pid
            &&& 2 <= effects.len() <= 4
            &&& forall|i: int|
                1 <= i < effects.len() ==> is_unmount_of(
                    #[trigger] effects[i],
                    container.mounts.system_mount,
                )
        }),
{
    let begin = (container, container.fuse_mount_images().1);
    let sm = container.mounts.system_mount;
    let o1 = outcomes.drop_first();
    let o2 = o1.drop_first();
    let o3 = o2.drop_first();
    let o4 = o3.drop_first();
    let s1 = container.resume(outcomes[0]);
    assert(s1.1 == NextModel::Perform(EffectModel::Run(fusermount(Attempt::Primary, sm))));
    assert(is_unmount_of(s1.1->Perform_0, sm));
    let s2 = s1.0.resume(o1[0]);
    assert(run(begin, outcomes) == run(s1, o1));
    assert(run(s1, o1) == run(s2, o2));
    assert(performed(begin, outcomes) =~= seq![begin.1->Perform_0] + performed(s1, o1));
    assert(performed(s1, o1) =~= seq![s1.1->Perform_0] + performed(s2, o2));
    if s2.1 is Perform {
        assert(s2.1 == NextModel::Perform(EffectModel::Run(fusermount(Attempt::Fallback, sm))));
        assert(is_unmount_of(s2.1->Perform_0, sm));
        let s3 = s2.0.resume(o2[0]);
        assert(run(s2, o2) == run(s3, o3));
        assert(performed(s2, o2) =~= seq![s2.1->Perform_0] + performed(s3, o3));
        if s3.1 is Perform {
            assert(s3.1 == NextModel::Perform(EffectModel::Run(fusermount(Attempt::Lazy, sm))));
            assert(is_unmount_of(s3.1->Perform_0, sm));
            let s4 = s3.0.resume(o3[0]);
            assert(run(s3, o3) == run(s4, o4));
            assert(performed(s3, o3) =~= seq![s3.1->Perform_0] + performed(s4, o4));
            assert(!(s4.1 is Perform));
            assert(run(s4, o4) == s4);
            assert(performed(s4, o4) =~= Seq::<EffectModel>::empty());
        } else {
            assert(run(s3, o3) == s3);
            assert(performed(s3, o3) =~= Seq::<EffectModel>::empty());
        }
    } else {
        assert(run(s2, o2) == s2);
        assert(performed(s2, o2) =~= Seq::<EffectModel>::empty());
    }
}

/// What holds of a container while it starts, stage by stage: what was
/// mounted stays mounted, and the process that was spawned is the one
/// tracked.
spec fn start_progress(container: ContainerModel) -> bool {
    let mounted = container.system_mounted && container.vendor_mounted;
    match container.stage {
        Stage::Validating | Stage::CreatingDirs | Stage::MountingSystem => true,
        Stage::MountingVendor => container.system_mounted,
        Stage::Releasing(_) => true,
        Stage::ListingApex
        | Stage::PreparingUpper
        | Stage::WritingLinkerConfig
        | Stage::ProbingInit
        | Stage::Spawning => mounted,
        Stage::Settling(pid) | Stage::CheckingInit(pid) => mounted && container.overlay_mounted
            && container.init_pid == Some(pid),
        Stage::CollectingOutput => true,
        Stage::PersistingPid => mounted && container.overlay_mounted && container.init_pid is Some
            && container.phase == Phase::Running,
        _ => false,
    }
}

/// What holds of a container that was started.
pub open spec fn started(end: (ContainerModel, NextModel)) -> bool {
    &&& end.0.stage is Idle
    &&& end.0.phase == Phase::Running
    &&& end.0.init_pid is Some
    &&& end.0.system_mounted
    &&& end.0.vendor_mounted
    &&& end.0.overlay_mounted
}

proof fn lemma_start_ends_running(start: (ContainerModel, NextModel), outcomes: Seq<OutcomeModel>)
    requires
        start.1 is Perform,
        start_progress(start.0),
    ensures
        run(start, outcomes).1 is Done ==> started(run(start, outcomes)),
    decreases outcomes.len(),
{
    if outcomes.len() > 0 {
        let step = start.0.resume(outcomes[0]);
        if step.1 is Perform {
            lemma_start_ends_running(step, outcomes.drop_first());
        } else {
            assert(run(step, outcomes.drop_first()) == step);
        }
    }
}

/// Whatever the host reports during a start: if the start ends well, the
/// container runs. Both images are mounted, the overlay is mounted inside
/// the namespaces, and the process that the host started is tracked.
pub proof fn law_started_container_runs(container: ContainerModel, outcomes: Seq<OutcomeModel>)
    ensures
        run(container.start(), outcomes).1 is Done ==> started(run(container.start(), outcomes)),
{
    lemma_start_ends_running(container.start(), outcomes);
}

/// Waiting for the boot of a container whose process has gone ends at once:
/// the clock is read, the process is looked at, and the wait has failed. The
/// host is never asked to pause, however long the deadline is.
pub proof fn law_dead_init_ends_boot_wait(
    container: ContainerModel,
    timeout_secs: u64,
    first: OutcomeModel,
    second: OutcomeModel,
    probe: OutcomeModel,
)
    requires
        !timed_out(timeout_secs, reading(first), reading(second)),
        !(probe is Done),
    ensures
        ({
            let outcomes = seq![first, second, probe];
            let end = run(container.wait_for_boot(timeout_secs), outcomes);
            let effects = performed(container.wait_for_boot(timeout_secs), outcomes);
            &&& end.1 == NextModel::Failed(died_during_boot())
            &&& end.0 == container.idle()
            &&& forall|i: int| 0 <= i < effects.len() ==> !(#[trigger] effects[i] is Sleep)
        }),
{
    let outcomes = seq![first, second, probe];
    let begin = container.wait_for_boot(timeout_secs);
    let o1 = outcomes.drop_first();
    let o2 = o1.drop_first();
    let o3 = o2.drop_first();
    assert(outcomes[0] == first);
    assert(o1[0] == second);
    assert(o2[0] == probe);
    assert(o3.len() == 0);
    let s1 = begin.0.resume(first);
    let s2 = s1.0.resume(second);
    assert(run(begin, outcomes) == run(s1, o1));
    assert(run(s1, o1) == run(s2, o2));
    assert(performed(begin, outcomes) =~= seq![begin.1->Perform_0] + performed(s1, o1));
    assert(performed(s1, o1) =~= seq![s1.1->Perform_0] + performed(s2, o2));
    match container.init_pid {
        Some(pid) => {
            let s3 = s2.0.resume(probe);
            assert(run(s2, o2) == run(s3, o3));
            assert(run(s3, o3) == s3);
            assert(performed(s2, o2) =~= seq![s2.1->Perform_0] + performed(s3, o3));
            assert(performed(s3, o3) =~= Seq::<EffectModel>::empty());
        },
        None => {
            assert(run(s2, o2) == s2);
            assert(performed(s2, o2) =~= Seq::<EffectModel>::empty());
        },
    }
}

/// What is left to do of a stop that stands at this stage, counted in
/// effects at most.
spec fn stop_budget(stage: Stage) -> nat {
    match stage {
        Stage::Terminating(_) => 11,
        Stage::GracePeriod(_) => 10,
        Stage::Killing(_) => 9,
        Stage::Reaping(_) => 8,
        Stage::UnmountingVendor(Attempt::Primary) => 7,
        Stage::UnmountingVendor(Attempt::Fallback) => 6,
        Stage::UnmountingVendor(Attempt::Lazy) => 5,
        Stage::UnmountingSystem(Attempt::Primary) => 4,
        Stage::UnmountingSystem(Attempt::Fallback) => 3,
        Stage::UnmountingSystem(Attempt::Lazy) => 2,
        Stage::RemovingPidFile => 1,
        _ => 0,
    }
}

/// What holds of a container while it stops.
spec fn stopping(container: ContainerModel) -> bool {
    &&& stop_budget(container.stage) > 0
    &&& container.phase == Phase::Stopping
    &&& container.init_pid is None
    &&& container.stage is RemovingPidFile ==> !container.overlay_mounted
    &&& container.stage is UnmountingVendor ==> container.vendor_mounted
    &&& container.stage is UnmountingSystem ==> container.system_mounted
}

/// What holds of a container that was stopped.
pub open spec fn stopped(end: (ContainerModel, NextModel)) -> bool {
    &&& end.1 is Done
    &&& end.0.stage is Idle
    &&& end.0.phase == Phase::Stopped
    &&& end.0.init_pid is None
    &&& !end.0.overlay_mounted
}

/// Whether a stop that stands at this stage has the vendor image behind it.
spec fn past_vendor(stage: Stage) -> bool {
    stage is UnmountingSystem || stage is RemovingPidFile
}

/// Whether a stop that stands at this stage has not begun to unmount.
spec fn before_unmounts(stage: Stage) -> bool {
    stage is Terminating || stage is GracePeriod || stage is Killing || stage is Reaping
}

/// How many images resisted on the way.
pub open spec fn resisting(start: (ContainerModel, NextModel), outcomes: Seq<OutcomeModel>) -> nat {
    (if vendor_resisted(start, outcomes) {
        1nat
    } else {
        0nat
    }) + (if system_resisted(start, outcomes) {
        1nat
    } else {
        0nat
    })
}

/// The warning, which begins with `label`, says that what is mounted at
/// `mount_point` could not be unmounted.
pub open spec fn warns_of(warning: Seq<char>, label: Seq<char>, mount_point: Seq<char>) -> bool {
    has_prefix(warning, label + "fusermount -u failed for "@ + mount_point + ": "@)
}

proof fn lemma_warning_names_the_image(label: Seq<char>, mount_point: Seq<char>, said: Seq<char>)
    ensures
        warns_of(label + unmount_failure(mount_point, said).message, label, mount_point),
{
    let prefix = label + "fusermount -u failed for "@ + mount_point + ": "@;
    let warning = label + unmount_failure(mount_point, said).message;
    assert(warning =~= prefix + said);
    assert(warning.subrange(0, prefix.len() as int) =~= prefix);
}

proof fn lemma_stop_ends(start: (ContainerModel, NextModel), outcomes: Seq<OutcomeModel>)
    requires
        start.1 is Perform,
        stopping(start.0),
        outcomes.len() >= stop_budget(start.0.stage),
    ensures
        stopped(run(start, outcomes)),
        run(start, outcomes).0.vendor_mounted == (start.0.vendor_mounted && (past_vendor(
            start.0.stage,
        ) || vendor_resisted(start, outcomes))),
        run(start, outcomes).0.system_mounted == (start.0.system_mounted && (
        start.0.stage is RemovingPidFile || system_resisted(start, outcomes))),
        past_vendor(start.0.stage) ==> !vendor_resisted(start, outcomes),
        start.0.stage is RemovingPidFile ==> !system_resisted(start, outcomes),
        ({
            let kept: int = if before_unmounts(start.0.stage) {
                0
            } else {
                start.0.warnings.len() as int
            };
            let warnings = run(start, outcomes).0.warnings;
            &&& warnings.len() == kept + resisting(start, outcomes)
            &&& forall|i: int| 0 <= i < kept ==> warnings[i] == start.0.warnings[i]
            &&& run(start, outcomes).0.mounts == start.0.mounts
            &&& vendor_resisted(start, outcomes) ==> warns_of(
                warnings[kept],
                "vendor.img FUSE: "@,
                start.0.mounts.vendor_mount,
            )
            &&& system_resisted(start, outcomes) ==> warns_of(
                warnings[warnings.len() - 1],
                "system.img FUSE: "@,
                start.0.mounts.system_mount,
            )
        }),
    decreases outcomes.len(),
{
    let step = start.0.resume(outcomes[0]);
    lemma_warning_names_the_image(
        "vendor.img FUSE: "@,
        start.0.mounts.vendor_mount,
        start.0.diagnostic,
    );
    lemma_warning_names_the_image(
        "system.img FUSE: "@,
        start.0.mounts.system_mount,
        start.0.diagnostic,
    );
    if step.1 is Perform {
        lemma_stop_ends(step, outcomes.drop_first());
    } else {
        assert(run(step, outcomes.drop_first()) == step);
        assert(!vendor_resisted(step, outcomes.drop_first()));
        assert(!system_resisted(step, outcomes.drop_first()));
    }
}

/// A stop always ends, and ends well, within eleven effects: the process is
/// tracked no longer, the overlay is gone, and the container is stopped for
/// good. An image is still marked as mounted afterwards in one case only:
/// it was mounted, and it resisted all three attempts to unmount it. For
/// each such image, and for no other reason, the stop leaves a warning that
/// names the image and its mount point, the vendor image first.
pub proof fn law_stop_takes_everything_down(
    container: ContainerModel,
    outcomes: Seq<OutcomeModel>,
)
    requires
        outcomes.len() >= 11,
    ensures
        stopped(run(container.stop(), outcomes)),
        run(container.stop(), outcomes).0.vendor_mounted <==> container.vendor_mounted
            && vendor_resisted(container.stop(), outcomes),
        run(container.stop(), outcomes).0.system_mounted <==> container.system_mounted
            && system_resisted(container.stop(), outcomes),
        run(container.stop(), outcomes).0.warnings.len() == resisting(container.stop(), outcomes),
        vendor_resisted(container.stop(), outcomes) ==> warns_of(
            run(container.stop(), outcomes).0.warnings[0],
            "vendor.img FUSE: "@,
            container.mounts.vendor_mount,
        ),
        system_resisted(container.stop(), outcomes) ==> warns_of(
            run(container.stop(), outcomes).0.warnings.last(),
            "system.img FUSE: "@,
            container.mounts.system_mount,
        ),
{
    let begin = container.stop();
    if begin.1 is Perform {
        lemma_stop_ends(begin, outcomes);
    } else {
        assert(run(begin, outcomes) == begin);
    }
}

/// Discarding a container that still tracks a process or holds a mounted
/// image takes it down exactly as a stop does, though nobody asked for one.
/// So it ends as a stop ends, and afterwards both images are unmounted,
/// except for an image that resisted all three attempts to unmount it.
pub proof fn law_discard_is_stop(container: ContainerModel, outcomes: Seq<OutcomeModel>)
    requires
        container.needs_teardown(),
        outcomes.len() >= 11,
    ensures
        container.discard() == container.stop(),
        container.discard().1 is Perform,
        stopped(run(container.discard(), outcomes)),
        !vendor_resisted(container.discard(), outcomes) ==> !run(
            container.discard(),
            outcomes,
        ).0.vendor_mounted,
        !system_resisted(container.discard(), outcomes) ==> !run(
            container.discard(),
            outcomes,
        ).0.system_mounted,
{
    law_stop_takes_everything_down(container, outcomes);
}

/// Stopping a container that tracks no process and holds no mounted image
/// asks for no unmount: with no pid file it asks for nothing at all, and
/// with one only for its removal. Stopping once more after a stop is such a
/// stop.
pub proof fn law_stop_is_idempotent(container: ContainerModel, outcome: OutcomeModel)
    requires
        !container.needs_teardown(),
    ensures
        container.pid_file is None ==> stopped(container.stop()),
        container.pid_file is Some ==> container.stop().1 == NextModel::Perform(
            EffectModel::RemoveFile(container.pid_file->Some_0),
        ) && stopped(container.stop().0.resume(outcome)),
        !run(container.stop(), seq![outcome]).0.needs_teardown(),
        stopped(run(container.stop(), seq![outcome])),
        run(run(container.stop(), seq![outcome]).0.stop(), seq![outcome]).0 == run(
            container.stop(),
            seq![outcome],
        ).0,
{
    let outcomes = seq![outcome];
    assert(outcomes[0] == outcome);
    assert(outcomes.drop_first() =~= Seq::<OutcomeModel>::empty());
    let begin = container.stop();
    let end = run(begin, outcomes);
    if begin.1 is Perform {
        let step = begin.0.resume(outcome);
        assert(run(begin, outcomes) == run(step, outcomes.drop_first()));
        assert(run(step, outcomes.drop_first()) == step);
    }
    let again = end.0.stop();
    if again.1 is Perform {
        let step = again.0.resume(outcome);
        assert(run(again, outcomes) == run(step, outcomes.drop_first()));
        assert(run(step, outcomes.drop_first()) == step);
        assert(step.0 == end.0);
    } else {
        assert(run(again, outcomes) == again);
        assert(again.0 == end.0);
    }
}

/// Which process is tracked changes in two moves only. The process that the
/// host reports as started, when init is spawned, is tracked from then on;
/// and an init that was found dead is tracked no longer once its output was
/// collected, which reaps it. No other move of the container touches it.
pub proof fn law_init_tracked_from_spawn_to_reaping(
    container: ContainerModel,
    outcome: OutcomeModel,
)
    ensures
        container.resume(outcome).0.init_pid == (if container.stage is Spawning && outcome
            is Started {
            Some(outcome->Started_0)
        } else if container.stage is CollectingOutput {
            None
        } else {
            container.init_pid
        }),
{
    let after = container.resume(outcome).0.init_pid;
    match container.stage {
        Stage::Spawning => {
            assert(after == container.after_spawning(outcome).0.init_pid);
        },
        Stage::CollectingOutput => {
            assert(after == container.after_collecting_output(outcome).0.init_pid);
        },
        Stage::Validating => {
            assert(after == container.after_validating(outcome).0.init_pid);
        },
        Stage::MountingVendor => {
            assert(after == container.after_mounting_vendor(outcome).0.init_pid);
        },
        Stage::Releasing(attempt) => {
            assert(after == container.after_releasing(attempt, outcome).0.init_pid);
        },
        Stage::ProbingInit => {
            assert(after == container.after_probing_init(outcome).0.init_pid);
        },
        Stage::UnmountingVendor(attempt) => {
            assert(after == container.after_unmounting_vendor(attempt, outcome).0.init_pid);
        },
        Stage::UnmountingSystem(attempt) => {
            assert(after == container.after_unmounting_system(attempt, outcome).0.init_pid);
        },
        Stage::Terminating(pid) => {
            assert(after == container.after_terminating(pid, outcome).0.init_pid);
        },
        Stage::Reaping(_) => {
            assert(after == container.fuse_unmount_all().0.init_pid);
        },
        _ => {},
    }
}

/// What holds of a container without a tracked process while it starts: no
/// process is tracked before one was spawned, and the overlay is mounted
/// only from then on.
spec fn launch_progress(container: ContainerModel) -> bool {
    match container.stage {
        Stage::Validating
        | Stage::CreatingDirs
        | Stage::MountingSystem
        | Stage::MountingVendor
        | Stage::Releasing(_)
        | Stage::ListingApex
        | Stage::PreparingUpper
        | Stage::WritingLinkerConfig
        | Stage::ProbingInit
        | Stage::Spawning => container.init_pid is None && !container.overlay_mounted,
        Stage::Settling(_)
        | Stage::CheckingInit(_)
        | Stage::CollectingOutput
        | Stage::PersistingPid => true,
        _ => false,
    }
}

proof fn lemma_failed_start_tracks_nothing(
    start: (ContainerModel, NextModel),
    outcomes: Seq<OutcomeModel>,
)
    requires
        start.1 is Perform,
        launch_progress(start.0),
    ensures
        run(start, outcomes).1 is Failed ==> run(start, outcomes).0.init_pid is None && !run(
            start,
            outcomes,
        ).0.overlay_mounted,
    decreases outcomes.len(),
{
    if outcomes.len() > 0 {
        let step = start.0.resume(outcomes[0]);
        if step.1 is Perform {
            lemma_failed_start_tracks_nothing(step, outcomes.drop_first());
        } else {
            assert(run(step, outcomes.drop_first()) == step);
        }
    }
}

/// A start that fails leaves no process tracked, whatever the host reports
/// and wherever it fails: before init was spawned none was tracked, and an
/// init that died at once was reaped with its output. Together with
/// [`law_started_container_runs`]: after a start, a process is tracked if and
/// only if it was launched and not reaped.
pub proof fn law_failed_start_tracks_no_process(
    container: ContainerModel,
    outcomes: Seq<OutcomeModel>,
)
    requires
        container.init_pid is None,
        !container.overlay_mounted,
    ensures
        run(container.start(), outcomes).1 is Failed ==> run(
            container.start(),
            outcomes,
        ).0.init_pid is None && !run(container.start(), outcomes).0.overlay_mounted,
{
    lemma_failed_start_tracks_nothing(container.start(), outcomes);
}

/// Of the operations that can be begun, only a stop, asked for or brought
/// about by discarding a container that needs it, ends the tracking of the
/// process. Every other operation leaves it as it is.
pub proof fn law_init_tracked_until_stop(
    container: ContainerModel,
    text: Seq<char>,
    more: Seq<char>,
    args: Seq<Seq<char>>,
    timeout_secs: u64,
)
    ensures
        container.stop().0.init_pid is None,
        container.discard().0.init_pid is None,
        container.start().0.init_pid == container.init_pid,
        container.is_running().0.init_pid == container.init_pid,
        container.wait_for_boot(timeout_secs).0.init_pid == container.init_pid,
        container.exec_command(text, args).0.init_pid == container.init_pid,
        container.install_apk(text).0.init_pid == container.init_pid,
        container.launch_app(text, more).0.init_pid == container.init_pid,
{
}

} // verus!
