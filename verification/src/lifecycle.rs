//! The supervisor as a state machine over plain values.
//!
//! Every function here takes the container as it is and an outcome that the
//! host reported, and gives the container as it will be and what comes next.
//! The executable supervisor is proved to make exactly these moves, and the
//! laws of the sandbox are proved of these functions.

use vstd::prelude::*;

use crate::assembly::apex_dirs;
use crate::assembly::apex_source;
use crate::assembly::chosen_init;
use crate::assembly::linker_config;
use crate::assembly::linker_config_dir;
use crate::assembly::linker_config_path;
use crate::assembly::init_candidates;
use crate::assembly::no_init;
use crate::assembly::sandbox_dirs;
use crate::assembly::setup_script;
use crate::error::ErrorKind;
use crate::error::ErrorModel;
use crate::host::EffectModel;
use crate::host::NextModel;
use crate::host::OutcomeModel;
use crate::host::PathStat;
use crate::host::Signal;
use crate::image::validation;
use crate::image::ImagePathsModel;
use crate::image::MountPointsModel;
use crate::path::joined_path;
use crate::text::decimal;
use crate::text::trimmed;
use crate::tools::after_unmount;
use crate::tools::fuse2fs;
use crate::tools::fusermount;
use crate::tools::mount_failure;
use crate::tools::nsenter;
use crate::tools::unshare;
use crate::tools::Attempt;
use crate::tools::UnmountingModel;

verus! {

/// How long init is given before it is looked at, in milliseconds.
pub const SETTLE_MILLIS: u64 = 500;

/// How long a process is given to end between the request to terminate and
/// the kill, in milliseconds.
pub const GRACE_MILLIS: u64 = 2000;

/// How long the supervisor waits between two looks at the boot property, in
/// milliseconds.
pub const POLL_MILLIS: u64 = 2000;

/// Where a container is in its life.
#[derive(Debug, Clone, Copy, PartialEq, Eq, Structural)]
pub enum Phase {
    /// Made, and nothing done yet.
    NotStarted,
    /// The images are validated and being mounted.
    Mounting,
    /// Both images are mounted; the upper layer is being prepared.
    Assembling,
    /// Init is being found and started.
    Launching,
    /// Init was started and found alive.
    Running,
    /// The container is being taken down.
    Stopping,
    /// The container was taken down. It is not started again.
    Stopped,
}

/// The effect that an operation is waiting for.
#[derive(Debug, Clone, Copy, PartialEq, Eq, Structural)]
pub enum Stage {
    /// No operation is under way.
    Idle,
    /// Starting: the images are being looked at.
    Validating,
    /// Starting: the directories of the sandbox are being created.
    CreatingDirs,
    /// Starting: the system image is being mounted.
    MountingSystem,
    /// Starting: the vendor image is being mounted.
    MountingVendor,
    /// Starting: the vendor image could not be mounted, and the system image
    /// is being unmounted again.
    Releasing(Attempt),
    /// Starting: the modules of the system image are being listed.
    ListingApex,
    /// Starting: the directories of the upper layer are being created.
    PreparingUpper,
    /// Starting: the linker's policy file is being written.
    WritingLinkerConfig,
    /// Starting: init is being looked for.
    ProbingInit,
    /// Starting: the namespaces are being made and init started in them.
    Spawning,
    /// Starting: init is given a moment.
    Settling(u32),
    /// Starting: init is being looked at.
    CheckingInit(u32),
    /// Starting: init has died, and what it printed is being collected.
    CollectingOutput,
    /// Starting: the process id is being written to the pid file.
    PersistingPid,
    /// Stopping: the process is being asked to terminate.
    Terminating(u32),
    /// Stopping: the process is given time to end.
    GracePeriod(u32),
    /// Stopping: the process is being killed.
    Killing(u32),
    /// Stopping: the process is being reaped.
    Reaping(u32),
    /// Stopping: the vendor image is being unmounted.
    UnmountingVendor(Attempt),
    /// Stopping: the system image is being unmounted.
    UnmountingSystem(Attempt),
    /// Stopping: the pid file is being removed.
    RemovingPidFile,
    /// A command is running inside the container.
    Executing,
    /// Installing: the directory for the package is being created.
    PreparingInstall,
    /// Installing: the package is being copied into the upper layer.
    CopyingApk,
    /// Installing: the package installer is running.
    Installing,
    /// The activity is being started.
    LaunchingApp,
    /// The process is being looked at.
    Probing,
    /// Waiting for boot: the clock is being read for the first time.
    BootStarting { timeout_secs: u64 },
    /// Waiting for boot: the clock is being read.
    BootClock { timeout_secs: u64, since: u64 },
    /// Waiting for boot: the process is being looked at.
    BootProbe { timeout_secs: u64, since: u64, pid: u32 },
    /// Waiting for boot: the boot property is being read.
    BootQuery { timeout_secs: u64, since: u64 },
    /// Waiting for boot: pausing until the next look.
    BootSleep { timeout_secs: u64, since: u64 },
}

/// A container as plain values.
pub struct ContainerModel {
    /// The process id of init, as seen from outside the container.
    pub init_pid: Option<u32>,
    /// The directories of the sandbox.
    pub mounts: MountPointsModel,
    /// The backing images.
    pub images: ImagePathsModel,
    /// Whether the system image is mounted.
    pub system_mounted: bool,
    /// Whether the vendor image is mounted.
    pub vendor_mounted: bool,
    /// Whether the overlay is mounted inside the namespaces.
    pub overlay_mounted: bool,
    /// Where the process id is kept for a later invocation.
    pub pid_file: Option<Seq<char>>,
    /// The effect that is waited for.
    pub stage: Stage,
    /// Where the container is in its life.
    pub phase: Phase,
    /// Text that one step leaves for a later one.
    pub carried: Seq<char>,
    /// What the plain `fusermount -u` had to say in the unmount under way.
    pub diagnostic: Seq<char>,
    /// What the last stop could not undo: one text for each image that
    /// resisted all three attempts to unmount it.
    pub warnings: Seq<Seq<char>>,
}

/// What is assumed of a path that the host said nothing about: it is not there.
pub open spec fn nothing_there() -> PathStat {
    PathStat { exists: false, is_dir: false, size: 0, mode: 0 }
}

/// What the host found at the `i`-th path it was asked to look at.
pub open spec fn stat_at(outcome: OutcomeModel, i: int) -> PathStat {
    match outcome {
        OutcomeModel::Stats(stats) => if 0 <= i < stats.len() {
            stats[i]
        } else {
            nothing_there()
        },
        _ => nothing_there(),
    }
}

/// The clock's reading, zero where the host gave none.
pub open spec fn reading(outcome: OutcomeModel) -> u64 {
    match outcome {
        OutcomeModel::Time(millis) => millis,
        _ => 0,
    }
}

/// Whether more than `timeout_secs` seconds lie between two readings.
pub open spec fn timed_out(timeout_secs: u64, since: u64, now: u64) -> bool {
    now - since > timeout_secs * 1000
}

/// The failure of an operation that needs init where none is tracked.
pub open spec fn not_running() -> ErrorModel {
    ErrorModel { kind: ErrorKind::Exec, message: "Container is not running (no init PID)"@ }
}

/// The failure of a command that could not be run inside the container.
pub open spec fn nsenter_failed() -> ErrorModel {
    ErrorModel { kind: ErrorKind::Exec, message: "Failed to execute nsenter"@ }
}

/// The failure for an init that did not survive its first moment, with what
/// it printed where that could be collected.
pub open spec fn init_died(outcome: OutcomeModel) -> ErrorModel {
    ErrorModel {
        kind: ErrorKind::Launch,
        message: match outcome {
            OutcomeModel::Exited(output) => "Init process died immediately.\nstdout: "@
                + output.stdout + "\nstderr: "@ + output.stderr,
            _ => "Init process died immediately."@,
        },
    }
}

/// The failure of a boot that was waited for in vain.
pub open spec fn boot_timeout(timeout_secs: u64) -> ErrorModel {
    ErrorModel {
        kind: ErrorKind::BootTimeout,
        message: "Timeout waiting for Android system to boot after "@ + decimal(
            timeout_secs as nat,
        ) + "s"@,
    }
}

/// The failure of a boot during which init disappeared.
pub open spec fn died_during_boot() -> ErrorModel {
    ErrorModel { kind: ErrorKind::Launch, message: "Container init process died during boot"@ }
}

/// The arguments of the package installer.
pub open spec fn install_args() -> Seq<Seq<char>> {
    seq!["install"@, "-r"@, "/data/local/tmp/install.apk"@]
}

/// The directory of the upper layer that a package is copied to.
pub open spec fn install_dir(upper: Seq<char>) -> Seq<char> {
    joined_path(upper, "data/local/tmp"@)
}

/// The arguments that start an activity of a package.
pub open spec fn launch_args(package: Seq<char>, activity: Seq<char>) -> Seq<Seq<char>> {
    seq!["start"@, "-n"@, package + "/"@ + activity]
}

/// The failure of a command that ran inside the container and did not exit
/// with status zero, with all that it printed.
pub open spec fn command_failed(what: Seq<char>, outcome: OutcomeModel) -> ErrorModel {
    match outcome {
        OutcomeModel::Exited(output) => ErrorModel {
            kind: ErrorKind::Exec,
            message: what + output.stdout + output.stderr,
        },
        _ => nsenter_failed(),
    }
}

impl ContainerModel {
    /// A container that was just made.
    pub open spec fn fresh(images: ImagePathsModel, mounts: MountPointsModel) -> ContainerModel {
        ContainerModel {
            init_pid: None,
            mounts,
            images,
            system_mounted: false,
            vendor_mounted: false,
            overlay_mounted: false,
            pid_file: None,
            stage: Stage::Idle,
            phase: Phase::NotStarted,
            carried: Seq::empty(),
            diagnostic: Seq::empty(),
            warnings: Seq::empty(),
        }
    }

    /// The same container, waiting for another effect.
    pub open spec fn at(self, stage: Stage) -> ContainerModel {
        ContainerModel { stage, ..self }
    }

    /// The same container with no operation under way.
    pub open spec fn idle(self) -> ContainerModel {
        ContainerModel { stage: Stage::Idle, ..self }
    }

    /// The operation ends with a failure and leaves the container as it is.
    pub open spec fn fail(self, error: ErrorModel) -> (ContainerModel, NextModel) {
        (self.idle(), NextModel::Failed(error))
    }

    /// Whether anything is left to take down: a tracked process, or a mounted
    /// image.
    pub open spec fn needs_teardown(self) -> bool {
        self.init_pid is Some || self.system_mounted || self.vendor_mounted
    }

    // ----- start -----
    /// Starting begins with a look at the two images, before anything is
    /// changed.
    pub open spec fn start(self) -> (ContainerModel, NextModel) {
        (
            self.at(Stage::Validating),
            NextModel::Perform(
                EffectModel::Stat(seq![self.images.system_img, self.images.vendor_img]),
            ),
        )
    }

    /// With valid images the directories of the sandbox are created; with
    /// others the start fails and nothing was changed.
    pub open spec fn after_validating(self, outcome: OutcomeModel) -> (ContainerModel, NextModel) {
        match validation(self.images, stat_at(outcome, 0), stat_at(outcome, 1)) {
            Some(error) => self.fail(error),
            None => (
                ContainerModel { stage: Stage::CreatingDirs, phase: Phase::Mounting, ..self },
                NextModel::Perform(EffectModel::CreateDirs(sandbox_dirs(self.mounts))),
            ),
        }
    }

    /// The system image is mounted first.
    pub open spec fn fuse_mount_images(self) -> (ContainerModel, NextModel) {
        (
            self.at(Stage::MountingSystem),
            NextModel::Perform(
                EffectModel::Run(fuse2fs(self.images.system_img, self.mounts.system_mount, true)),
            ),
        )
    }

    /// Once the directories are there the images are mounted.
    pub open spec fn after_creating_dirs(self, outcome: OutcomeModel) -> (
        ContainerModel,
        NextModel,
    ) {
        if outcome is Done {
            self.fuse_mount_images()
        } else {
            self.fail(
                ErrorModel {
                    kind: ErrorKind::Io,
                    message: "Failed to create directory: "@ + outcome.reason(),
                },
            )
        }
    }

    /// The vendor image is mounted only after the system image.
    pub open spec fn after_mounting_system(self, outcome: OutcomeModel) -> (
        ContainerModel,
        NextModel,
    ) {
        if outcome.ran_well() {
            (
                ContainerModel { system_mounted: true, stage: Stage::MountingVendor, ..self },
                NextModel::Perform(
                    EffectModel::Run(
                        fuse2fs(self.images.vendor_img, self.mounts.vendor_mount, true),
                    ),
                ),
            )
        } else {
            self.fail(mount_failure(self.images.system_img, outcome))
        }
    }

    /// With both images mounted the upper layer is prepared. Where the vendor
    /// image could not be mounted, the system image is unmounted again before
    /// the failure is reported.
    pub open spec fn after_mounting_vendor(self, outcome: OutcomeModel) -> (
        ContainerModel,
        NextModel,
    ) {
        if outcome.ran_well() {
            (
                ContainerModel {
                    vendor_mounted: true,
                    phase: Phase::Assembling,
                    stage: Stage::ListingApex,
                    ..self
                },
                NextModel::Perform(EffectModel::ListDir(apex_source(self.mounts.system_mount))),
            )
        } else {
            (
                ContainerModel {
                    carried: mount_failure(self.images.vendor_img, outcome).message,
                    stage: Stage::Releasing(Attempt::Primary),
                    ..self
                },
                NextModel::Perform(
                    EffectModel::Run(fusermount(Attempt::Primary, self.mounts.system_mount)),
                ),
            )
        }
    }

    /// The system image is given up whatever the unmount attempts come to, and
    /// the start fails with the reason for which the vendor image could not
    /// be mounted.
    pub open spec fn after_releasing(self, attempt: Attempt, outcome: OutcomeModel) -> (
        ContainerModel,
        NextModel,
    ) {
        match after_unmount(attempt, self.mounts.system_mount, self.diagnostic, outcome) {
            Ok(UnmountingModel::Retry { attempt: next, diagnostic }) => (
                ContainerModel { diagnostic, stage: Stage::Releasing(next), ..self },
                NextModel::Perform(EffectModel::Run(fusermount(next, self.mounts.system_mount))),
            ),
            _ => (
                ContainerModel {
                    system_mounted: false,
                    carried: Seq::empty(),
                    diagnostic: Seq::empty(),
                    stage: Stage::Idle,
                    ..self
                },
                NextModel::Failed(
                    ErrorModel {
                        kind: ErrorKind::Mount,
                        message: "Failed to FUSE-mount vendor.img: "@ + self.carried,
                    },
                ),
            ),
        }
    }

    /// The directories to create in the upper layer: one for each module that
    /// was listed, and the one for the linker's policy.
    pub open spec fn upper_dirs(self, outcome: OutcomeModel) -> Seq<Seq<char>> {
        match outcome {
            OutcomeModel::Entries(entries) => apex_dirs(self.mounts.overlay_upper, entries).push(
                linker_config_dir(self.mounts.overlay_upper),
            ),
            _ => seq![linker_config_dir(self.mounts.overlay_upper)],
        }
    }

    /// An image without modules needs no directories for them; a listing that
    /// failed ends the start.
    pub open spec fn after_listing_apex(self, outcome: OutcomeModel) -> (
        ContainerModel,
        NextModel,
    ) {
        if outcome is Entries || outcome is Absent {
            (
                self.at(Stage::PreparingUpper),
                NextModel::Perform(EffectModel::CreateDirs(self.upper_dirs(outcome))),
            )
        } else {
            self.fail(
                ErrorModel {
                    kind: ErrorKind::Io,
                    message: "Failed to read /system/apex directory"@,
                },
            )
        }
    }

    /// The linker's policy is written into the upper layer.
    pub open spec fn after_preparing_upper(self, outcome: OutcomeModel) -> (
        ContainerModel,
        NextModel,
    ) {
        if outcome is Done {
            (
                self.at(Stage::WritingLinkerConfig),
                NextModel::Perform(
                    EffectModel::WriteFile {
                        path: linker_config_path(self.mounts.overlay_upper),
                        contents: linker_config(),
                    },
                ),
            )
        } else {
            self.fail(
                ErrorModel {
                    kind: ErrorKind::Io,
                    message: "Failed to create directory: "@ + outcome.reason(),
                },
            )
        }
    }

    /// Init is looked for in the mounted system image.
    pub open spec fn after_writing_linker_config(self, outcome: OutcomeModel) -> (
        ContainerModel,
        NextModel,
    ) {
        if outcome is Done {
            (
                ContainerModel { stage: Stage::ProbingInit, phase: Phase::Launching, ..self },
                NextModel::Perform(EffectModel::Stat(init_candidates(self.mounts.system_mount))),
            )
        } else {
            self.fail(
                ErrorModel { kind: ErrorKind::Io, message: "Failed to write linker config"@ },
            )
        }
    }

    /// The first init that was found is started in fresh namespaces; without
    /// one the start fails before any process is made.
    pub open spec fn after_probing_init(self, outcome: OutcomeModel) -> (
        ContainerModel,
        NextModel,
    ) {
        match chosen_init(outcome) {
            Some(init) => (
                self.at(Stage::Spawning),
                NextModel::Perform(EffectModel::Spawn(unshare(setup_script(self.mounts, init)))),
            ),
            None => self.fail(no_init(self.mounts.system_mount)),
        }
    }

    /// The process that was started is tracked from here on.
    pub open spec fn after_spawning(self, outcome: OutcomeModel) -> (ContainerModel, NextModel) {
        match outcome {
            OutcomeModel::Started(pid) => (
                ContainerModel {
                    init_pid: Some(pid),
                    overlay_mounted: true,
                    stage: Stage::Settling(pid),
                    ..self
                },
                NextModel::Perform(EffectModel::Sleep { millis: SETTLE_MILLIS }),
            ),
            _ => self.fail(
                ErrorModel {
                    kind: ErrorKind::Launch,
                    message: "Failed to spawn container via unshare (is unshare available?)"@,
                },
            ),
        }
    }

    /// After its moment init is looked at.
    pub open spec fn after_settling(self, pid: u32) -> (ContainerModel, NextModel) {
        (
            self.at(Stage::CheckingInit(pid)),
            NextModel::Perform(EffectModel::Signal { pid, signal: Signal::Probe }),
        )
    }

    /// An init that is alive makes the container run; its process id is kept
    /// where a pid file was asked for. An init that has died is asked for
    /// what it printed.
    pub open spec fn after_checking_init(self, pid: u32, outcome: OutcomeModel) -> (
        ContainerModel,
        NextModel,
    ) {
        if outcome is Done {
            match self.pid_file {
                Some(path) => (
                    ContainerModel { stage: Stage::PersistingPid, phase: Phase::Running, ..self },
                    NextModel::Perform(
                        EffectModel::WriteFile { path, contents: decimal(pid as nat) },
                    ),
                ),
                None => (
                    ContainerModel { stage: Stage::Idle, phase: Phase::Running, ..self },
                    NextModel::Done,
                ),
            }
        } else {
            (self.at(Stage::CollectingOutput), NextModel::Perform(EffectModel::CollectOutput))
        }
    }

    /// What init printed is the reason of the failure. Init was reaped when
    /// its output was collected, so it is tracked no longer, and the overlay
    /// went with its namespaces. The images stay mounted until the container
    /// is stopped or discarded.
    pub open spec fn after_collecting_output(self, outcome: OutcomeModel) -> (
        ContainerModel,
        NextModel,
    ) {
        ContainerModel { init_pid: None, overlay_mounted: false, ..self }.fail(init_died(outcome))
    }

    /// A pid file that could not be written does not undo the start.
    pub open spec fn after_persisting_pid(self) -> (ContainerModel, NextModel) {
        (self.idle(), NextModel::Done)
    }

    // ----- stop -----
    /// The end of a stop: the overlay went with the namespaces, and the pid
    /// file is removed where there is one.
    pub open spec fn finish_stop(self) -> (ContainerModel, NextModel) {
        match self.pid_file {
            Some(path) => (
                ContainerModel { overlay_mounted: false, stage: Stage::RemovingPidFile, ..self },
                NextModel::Perform(EffectModel::RemoveFile(path)),
            ),
            None => (
                ContainerModel {
                    overlay_mounted: false,
                    stage: Stage::Idle,
                    phase: Phase::Stopped,
                    ..self
                },
                NextModel::Done,
            ),
        }
    }

    /// The system image is unmounted if it is mounted.
    pub open spec fn release_system(self) -> (ContainerModel, NextModel) {
        if self.system_mounted {
            (
                self.at(Stage::UnmountingSystem(Attempt::Primary)),
                NextModel::Perform(
                    EffectModel::Run(fusermount(Attempt::Primary, self.mounts.system_mount)),
                ),
            )
        } else {
            self.finish_stop()
        }
    }

    /// The images are unmounted in the reverse of the order in which they
    /// were mounted: the vendor image first, if it is mounted.
    pub open spec fn fuse_unmount_all(self) -> (ContainerModel, NextModel) {
        let cleared = ContainerModel {
            diagnostic: Seq::empty(),
            warnings: Seq::empty(),
            ..self
        };
        if self.vendor_mounted {
            (
                cleared.at(Stage::UnmountingVendor(Attempt::Primary)),
                NextModel::Perform(
                    EffectModel::Run(fusermount(Attempt::Primary, self.mounts.vendor_mount)),
                ),
            )
        } else {
            cleared.release_system()
        }
    }

    /// Stopping begins with the process, if one is tracked: it is asked to
    /// terminate, and tracked no longer.
    pub open spec fn stop(self) -> (ContainerModel, NextModel) {
        let stopping = ContainerModel { phase: Phase::Stopping, ..self };
        match self.init_pid {
            Some(pid) => (
                ContainerModel { init_pid: None, stage: Stage::Terminating(pid), ..stopping },
                NextModel::Perform(EffectModel::Signal { pid, signal: Signal::Terminate }),
            ),
            None => stopping.fuse_unmount_all(),
        }
    }

    /// A process that took the request is given time to end. One that could
    /// not be reached is left alone.
    pub open spec fn after_terminating(self, pid: u32, outcome: OutcomeModel) -> (
        ContainerModel,
        NextModel,
    ) {
        if outcome is Done {
            (
                self.at(Stage::GracePeriod(pid)),
                NextModel::Perform(EffectModel::Sleep { millis: GRACE_MILLIS }),
            )
        } else {
            self.fuse_unmount_all()
        }
    }

    /// After the time it was given the process is killed.
    pub open spec fn after_grace_period(self, pid: u32) -> (ContainerModel, NextModel) {
        (
            self.at(Stage::Killing(pid)),
            NextModel::Perform(EffectModel::Signal { pid, signal: Signal::Kill }),
        )
    }

    /// After the kill the process is reaped.
    pub open spec fn after_killing(self, pid: u32) -> (ContainerModel, NextModel) {
        (self.at(Stage::Reaping(pid)), NextModel::Perform(EffectModel::Reap { pid }))
    }

    /// An image that was unmounted is mounted no longer. One that resisted
    /// all three attempts stays marked as mounted; the failure is kept as a
    /// warning, and the stop goes on.
    pub open spec fn after_unmounting_vendor(self, attempt: Attempt, outcome: OutcomeModel) -> (
        ContainerModel,
        NextModel,
    ) {
        match after_unmount(attempt, self.mounts.vendor_mount, self.diagnostic, outcome) {
            Ok(UnmountingModel::Released) => ContainerModel {
                vendor_mounted: false,
                diagnostic: Seq::empty(),
                ..self
            }.release_system(),
            Ok(UnmountingModel::Retry { attempt: next, diagnostic }) => (
                ContainerModel { diagnostic, stage: Stage::UnmountingVendor(next), ..self },
                NextModel::Perform(EffectModel::Run(fusermount(next, self.mounts.vendor_mount))),
            ),
            Err(error) => ContainerModel {
                diagnostic: Seq::empty(),
                warnings: self.warnings.push("vendor.img FUSE: "@ + error.message),
                ..self
            }.release_system(),
        }
    }

    /// As for the vendor image.
    pub open spec fn after_unmounting_system(self, attempt: Attempt, outcome: OutcomeModel) -> (
        ContainerModel,
        NextModel,
    ) {
        match after_unmount(attempt, self.mounts.system_mount, self.diagnostic, outcome) {
            Ok(UnmountingModel::Released) => ContainerModel {
                system_mounted: false,
                diagnostic: Seq::empty(),
                ..self
            }.finish_stop(),
            Ok(UnmountingModel::Retry { attempt: next, diagnostic }) => (
                ContainerModel { diagnostic, stage: Stage::UnmountingSystem(next), ..self },
                NextModel::Perform(EffectModel::Run(fusermount(next, self.mounts.system_mount))),
            ),
            Err(error) => ContainerModel {
                diagnostic: Seq::empty(),
                warnings: self.warnings.push("system.img FUSE: "@ + error.message),
                ..self
            }.finish_stop(),
        }
    }

    /// A stop always ends well.
    pub open spec fn after_removing_pid_file(self) -> (ContainerModel, NextModel) {
        (ContainerModel { stage: Stage::Idle, phase: Phase::Stopped, ..self }, NextModel::Done)
    }

    /// A container that is discarded is stopped if anything is left of it.
    pub open spec fn discard(self) -> (ContainerModel, NextModel) {
        if self.needs_teardown() {
            self.stop()
        } else {
            (self.idle(), NextModel::Done)
        }
    }

    // ----- commands inside the container -----
    /// A command is run inside the namespaces of init, waiting at `stage` for
    /// its end. Without a tracked init there is nowhere to run it.
    pub open spec fn run_inside(self, stage: Stage, command: Seq<char>, args: Seq<Seq<char>>) -> (
        ContainerModel,
        NextModel,
    ) {
        match self.init_pid {
            Some(pid) => (
                self.at(stage),
                NextModel::Perform(EffectModel::Run(nsenter(pid, command, args))),
            ),
            None => self.fail(not_running()),
        }
    }

    /// Running a command inside the container.
    pub open spec fn exec_command(self, command: Seq<char>, args: Seq<Seq<char>>) -> (
        ContainerModel,
        NextModel,
    ) {
        self.run_inside(Stage::Executing, command, args)
    }

    /// The output of the command is handed on whatever its exit status.
    pub open spec fn after_executing(self, outcome: OutcomeModel) -> (ContainerModel, NextModel) {
        match outcome {
            OutcomeModel::Exited(output) => (self.idle(), NextModel::Output(output)),
            _ => self.fail(nsenter_failed()),
        }
    }

    /// Installing a package begins with the directory that it is copied to.
    pub open spec fn install_apk(self, apk_path: Seq<char>) -> (ContainerModel, NextModel) {
        if self.init_pid is Some {
            (
                ContainerModel { carried: apk_path, stage: Stage::PreparingInstall, ..self },
                NextModel::Perform(
                    EffectModel::CreateDirs(seq![install_dir(self.mounts.overlay_upper)]),
                ),
            )
        } else {
            self.fail(ErrorModel { kind: ErrorKind::Exec, message: "Container is not running"@ })
        }
    }

    /// The package is copied into the upper layer, which the host can write.
    pub open spec fn after_preparing_install(self, outcome: OutcomeModel) -> (
        ContainerModel,
        NextModel,
    ) {
        if outcome is Done {
            (
                ContainerModel { carried: Seq::empty(), stage: Stage::CopyingApk, ..self },
                NextModel::Perform(
                    EffectModel::CopyFile {
                        from: self.carried,
                        to: joined_path(install_dir(self.mounts.overlay_upper), "install.apk"@),
                    },
                ),
            )
        } else {
            ContainerModel { carried: Seq::empty(), ..self }.fail(
                ErrorModel {
                    kind: ErrorKind::Io,
                    message: "Failed to create directory: "@ + outcome.reason(),
                },
            )
        }
    }

    /// The installer runs inside the container on the copy.
    pub open spec fn after_copying_apk(self, outcome: OutcomeModel) -> (ContainerModel, NextModel) {
        if outcome is Done {
            self.run_inside(Stage::Installing, "pm"@, install_args())
        } else {
            self.fail(
                ErrorModel {
                    kind: ErrorKind::Io,
                    message: "Failed to copy APK into container overlay"@,
                },
            )
        }
    }

    /// An installer that did not exit with status zero failed.
    pub open spec fn after_installing(self, outcome: OutcomeModel) -> (ContainerModel, NextModel) {
        if outcome.ran_well() {
            (self.idle(), NextModel::Done)
        } else {
            self.fail(command_failed("pm install failed: "@, outcome))
        }
    }

    /// Starting an activity, named by its package and its own name.
    pub open spec fn launch_app(self, package: Seq<char>, activity: Seq<char>) -> (
        ContainerModel,
        NextModel,
    ) {
        self.run_inside(Stage::LaunchingApp, "am"@, launch_args(package, activity))
    }

    /// An activity manager that did not exit with status zero failed.
    pub open spec fn after_launching_app(self, outcome: OutcomeModel) -> (
        ContainerModel,
        NextModel,
    ) {
        if outcome.ran_well() {
            (self.idle(), NextModel::Done)
        } else {
            self.fail(command_failed("am start failed: "@, outcome))
        }
    }

    /// Without a tracked process nothing runs; a tracked one is looked at.
    pub open spec fn is_running(self) -> (ContainerModel, NextModel) {
        match self.init_pid {
            Some(pid) => (
                self.at(Stage::Probing),
                NextModel::Perform(EffectModel::Signal { pid, signal: Signal::Probe }),
            ),
            None => (self.idle(), NextModel::Answer(false)),
        }
    }

    /// The process runs if the signal could be delivered.
    pub open spec fn after_probing(self, outcome: OutcomeModel) -> (ContainerModel, NextModel) {
        (self.idle(), NextModel::Answer(outcome is Done))
    }

    // ----- waiting for boot -----
    /// Waiting begins with a reading of the clock.
    pub open spec fn wait_for_boot(self, timeout_secs: u64) -> (ContainerModel, NextModel) {
        (self.at(Stage::BootStarting { timeout_secs }), NextModel::Perform(EffectModel::ReadClock))
    }

    /// Every round begins with another reading.
    pub open spec fn after_boot_starting(self, timeout_secs: u64, outcome: OutcomeModel) -> (
        ContainerModel,
        NextModel,
    ) {
        (
            self.at(Stage::BootClock { timeout_secs, since: reading(outcome) }),
            NextModel::Perform(EffectModel::ReadClock),
        )
    }

    /// Past the deadline the wait fails. Before it the process is looked at;
    /// where none is tracked the wait fails at once.
    pub open spec fn after_boot_clock(
        self,
        timeout_secs: u64,
        since: u64,
        outcome: OutcomeModel,
    ) -> (ContainerModel, NextModel) {
        if timed_out(timeout_secs, since, reading(outcome)) {
            self.fail(boot_timeout(timeout_secs))
        } else {
            match self.init_pid {
                Some(pid) => (
                    self.at(Stage::BootProbe { timeout_secs, since, pid }),
                    NextModel::Perform(EffectModel::Signal { pid, signal: Signal::Probe }),
                ),
                None => self.fail(died_during_boot()),
            }
        }
    }

    /// A process that has gone ends the wait at once, without waiting out the
    /// deadline. One that is there is asked for the boot property.
    pub open spec fn after_boot_probe(
        self,
        timeout_secs: u64,
        since: u64,
        pid: u32,
        outcome: OutcomeModel,
    ) -> (ContainerModel, NextModel) {
        if outcome is Done {
            (
                self.at(Stage::BootQuery { timeout_secs, since }),
                NextModel::Perform(
                    EffectModel::Run(nsenter(pid, "getprop"@, seq!["sys.boot_completed"@])),
                ),
            )
        } else {
            self.fail(died_during_boot())
        }
    }

    /// Whether the command printed the value of a finished boot.
    pub open spec fn boot_completed(outcome: OutcomeModel) -> bool {
        outcome matches OutcomeModel::Exited(output) && trimmed(output.stdout) == "1"@
    }

    /// The wait ends when the property has the value of a finished boot.
    /// Until then, and where the property could not be read, it pauses.
    pub open spec fn after_boot_query(
        self,
        timeout_secs: u64,
        since: u64,
        outcome: OutcomeModel,
    ) -> (ContainerModel, NextModel) {
        if Self::boot_completed(outcome) {
            (self.idle(), NextModel::Done)
        } else {
            (
                self.at(Stage::BootSleep { timeout_secs, since }),
                NextModel::Perform(EffectModel::Sleep { millis: POLL_MILLIS }),
            )
        }
    }

    /// After the pause the clock is read again.
    pub open spec fn after_boot_sleep(self, timeout_secs: u64, since: u64) -> (
        ContainerModel,
        NextModel,
    ) {
        (
            self.at(Stage::BootClock { timeout_secs, since }),
            NextModel::Perform(EffectModel::ReadClock),
        )
    }

    // ----- the machine as a whole -----
    /// The move that the container makes on an outcome.
    pub open spec fn resume(self, outcome: OutcomeModel) -> (ContainerModel, NextModel) {
        match self.stage {
            Stage::Idle => (self, NextModel::Done),
            Stage::Validating => self.after_validating(outcome),
            Stage::CreatingDirs => self.after_creating_dirs(outcome),
            Stage::MountingSystem => self.after_mounting_system(outcome),
            Stage::MountingVendor => self.after_mounting_vendor(outcome),
            Stage::Releasing(attempt) => self.after_releasing(attempt, outcome),
            Stage::ListingApex => self.after_listing_apex(outcome),
            Stage::PreparingUpper => self.after_preparing_upper(outcome),
            Stage::WritingLinkerConfig => self.after_writing_linker_config(outcome),
            Stage::ProbingInit => self.after_probing_init(outcome),
            Stage::Spawning => self.after_spawning(outcome),
            Stage::Settling(pid) => self.after_settling(pid),
            Stage::CheckingInit(pid) => self.after_checking_init(pid, outcome),
            Stage::CollectingOutput => self.after_collecting_output(outcome),
            Stage::PersistingPid => self.after_persisting_pid(),
            Stage::Terminating(pid) => self.after_terminating(pid, outcome),
            Stage::GracePeriod(pid) => self.after_grace_period(pid),
            Stage::Killing(pid) => self.after_killing(pid),
            Stage::Reaping(_) => self.fuse_unmount_all(),
            Stage::UnmountingVendor(attempt) => self.after_unmounting_vendor(attempt, outcome),
            Stage::UnmountingSystem(attempt) => self.after_unmounting_system(attempt, outcome),
            Stage::RemovingPidFile => self.after_removing_pid_file(),
            Stage::Executing => self.after_executing(outcome),
            Stage::PreparingInstall => self.after_preparing_install(outcome),
            Stage::CopyingApk => self.after_copying_apk(outcome),
            Stage::Installing => self.after_installing(outcome),
            Stage::LaunchingApp => self.after_launching_app(outcome),
            Stage::Probing => self.after_probing(outcome),
            Stage::BootStarting { timeout_secs } => self.after_boot_starting(timeout_secs, outcome),
            Stage::BootClock { timeout_secs, since } => self.after_boot_clock(
                timeout_secs,
                since,
                outcome,
            ),
            Stage::BootProbe { timeout_secs, since, pid } => self.after_boot_probe(
                timeout_secs,
                since,
                pid,
                outcome,
            ),
            Stage::BootQuery { timeout_secs, since } => self.after_boot_query(
                timeout_secs,
                since,
                outcome,
            ),
            Stage::BootSleep { timeout_secs, since } => self.after_boot_sleep(timeout_secs, since),
        }
    }
}

} // verus!
