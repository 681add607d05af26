//! The container supervisor.
//!
//! A [`Container`] owns the state of one sandbox: the tracked init process and
//! which images are mounted. Each operation is begun by a method of its name,
//! which hands back the first effect, and carried on by [`Container::resume`]
//! with the outcome of each effect until it ends. One container serves one
//! sandbox root, and one operation at a time.

use vstd::prelude::*;
use vstd::string::StringExecFns;

use crate::assembly::build_setup_script;
use crate::assembly::choose_init;
use crate::assembly::generate_linkerconfig;
use crate::assembly::init_paths;
use crate::assembly::linker_config_dir;
use crate::assembly::linker_config_file;
use crate::assembly::prepare_apex_dirs;
use crate::assembly::prepare_prefix_dirs;
use crate::error::ErrorKind;
use crate::error::ErrorModel;
use crate::error::SandboxError;
use crate::host::Command;
use crate::host::Effect;
use crate::host::EffectModel;
use crate::host::Next;
use crate::host::NextModel;
use crate::host::Outcome;
use crate::host::PathStat;
use crate::host::Signal;
use crate::image::ImagePaths;
use crate::image::MountPoints;
use crate::lifecycle::command_failed;
use crate::lifecycle::install_args;
use crate::lifecycle::launch_args;
use crate::lifecycle::reading;
use crate::lifecycle::stat_at;
use crate::lifecycle::timed_out;
use crate::lifecycle::ContainerModel;
use crate::lifecycle::Phase;
use crate::lifecycle::Stage;
use crate::lifecycle::GRACE_MILLIS;
use crate::lifecycle::POLL_MILLIS;
use crate::lifecycle::SETTLE_MILLIS;
use crate::path::join;
use crate::text::decimal_string;
use crate::text::push_decimal;
use crate::text::same_text;
use crate::text::trim;
use crate::tools::fuse2fs_command;
use crate::tools::fuse2fs_mount;
use crate::tools::fusermount_command;
use crate::tools::fusermount_unmount;
use crate::tools::extend_texts;
use crate::tools::no_texts;
use crate::tools::nsenter_command;
use crate::tools::push_text;
use crate::tools::unshare_command;
use crate::tools::Attempt;
use crate::tools::Unmounting;

verus! {

/// The state of one sandbox.
#[derive(Debug)]
pub struct Container {
    /// The process id of init, as seen from outside the container.
    pub init_pid: Option<u32>,
    /// The directories of the sandbox.
    pub mounts: MountPoints,
    /// The backing images.
    pub images: ImagePaths,
    system_mounted: bool,
    vendor_mounted: bool,
    overlay_mounted: bool,
    pid_file: Option<String>,
    stage: Stage,
    phase: Phase,
    carried: String,
    diagnostic: String,
    warnings: Vec<String>,
}

impl DeepView for Container {
    type V = ContainerModel;

    closed spec fn deep_view(&self) -> ContainerModel {
        ContainerModel {
            init_pid: self.init_pid,
            mounts: self.mounts.deep_view(),
            images: self.images.deep_view(),
            system_mounted: self.system_mounted,
            vendor_mounted: self.vendor_mounted,
            overlay_mounted: self.overlay_mounted,
            pid_file: self.pid_file.deep_view(),
            stage: self.stage,
            phase: self.phase,
            carried: self.carried@,
            diagnostic: self.diagnostic@,
            warnings: self.warnings.deep_view(),
        }
    }
}

fn perform(effect: Effect) -> (next: Next)
    ensures
        next.deep_view() == NextModel::Perform(effect.deep_view()),
{
    Next::Perform(effect)
}

fn run(command: Command) -> (next: Next)
    ensures
        next.deep_view() == NextModel::Perform(EffectModel::Run(command.deep_view())),
{
    Next::Perform(Effect::Run(command))
}

fn probe(pid: u32) -> (next: Next)
    ensures
        next.deep_view() == NextModel::Perform(EffectModel::Signal { pid, signal: Signal::Probe }),
{
    Next::Perform(Effect::Signal { pid, signal: Signal::Probe })
}

fn failure(kind: ErrorKind, message: &str) -> (error: SandboxError)
    ensures
        error.deep_view() == (ErrorModel { kind, message: message@ }),
{
    SandboxError::new(kind, String::from_str(message))
}

fn directory_failure(outcome: &Outcome) -> (error: SandboxError)
    ensures
        error.deep_view() == (ErrorModel {
            kind: ErrorKind::Io,
            message: "Failed to create directory: "@ + outcome.deep_view().reason(),
        }),
{
    let mut message = String::from_str("Failed to create directory: ");
    let reason = outcome.reason();
    message.append(reason.as_str());
    SandboxError::new(ErrorKind::Io, message)
}

fn stat_of(outcome: &Outcome, i: usize) -> (stat: PathStat)
    ensures
        stat == stat_at(outcome.deep_view(), i as int),
{
    match outcome {
        Outcome::Stats(stats) => {
            if i < stats.len() {
                stats[i]
            } else {
                PathStat { exists: false, is_dir: false, size: 0, mode: 0 }
            }
        },
        _ => PathStat { exists: false, is_dir: false, size: 0, mode: 0 },
    }
}

fn clock_reading(outcome: &Outcome) -> (millis: u64)
    ensures
        millis == reading(outcome.deep_view()),
{
    match outcome {
        Outcome::Time(millis) => *millis,
        _ => 0,
    }
}

fn has_timed_out(timeout_secs: u64, since: u64, now: u64) -> (r: bool)
    ensures
        r == timed_out(timeout_secs, since, now),
{
    if now <= since {
        false
    } else if timeout_secs > u64::MAX / 1000 {
        false
    } else {
        now - since > timeout_secs * 1000
    }
}

fn failed_command(what: &str, outcome: &Outcome) -> (error: SandboxError)
    ensures
        error.deep_view() == command_failed(what@, outcome.deep_view()),
{
    match outcome {
        Outcome::Exited(output) => {
            let mut message = String::from_str(what);
            message.append(output.stdout.as_str());
            message.append(output.stderr.as_str());
            SandboxError::new(ErrorKind::Exec, message)
        },
        _ => failure(ErrorKind::Exec, "Failed to execute nsenter"),
    }
}

impl Container {
    /// A container for the given images and directories. Nothing is started.
    pub fn new(images: ImagePaths, mounts: MountPoints) -> (container: Container)
        ensures
            container.deep_view() == ContainerModel::fresh(images.deep_view(), mounts.deep_view()),
    {
        Container {
            init_pid: None,
            mounts,
            images,
            system_mounted: false,
            vendor_mounted: false,
            overlay_mounted: false,
            pid_file: None,
            stage: Stage::Idle,
            phase: Phase::NotStarted,
            carried: String::new(),
            diagnostic: String::new(),
            warnings: no_texts(),
        }
    }

    /// The same container, which keeps the process id of init in the file at
    /// `path` while it runs.
    pub fn with_pid_file(self, path: String) -> (container: Container)
        ensures
            container.deep_view() == (ContainerModel {
                pid_file: Some(path@),
                ..self.deep_view()
            }),
    {
        let mut container = self;
        container.pid_file = Some(path);
        container
    }

    /// Whether the system image is mounted.
    pub fn system_mounted(&self) -> (r: bool)
        ensures
            r == self.deep_view().system_mounted,
    {
        self.system_mounted
    }

    /// Whether the vendor image is mounted.
    pub fn vendor_mounted(&self) -> (r: bool)
        ensures
            r == self.deep_view().vendor_mounted,
    {
        self.vendor_mounted
    }

    /// Whether the overlay is mounted inside the namespaces.
    pub fn overlay_mounted(&self) -> (r: bool)
        ensures
            r == self.deep_view().overlay_mounted,
    {
        self.overlay_mounted
    }

    /// Where the container is in its life.
    pub fn phase(&self) -> (r: Phase)
        ensures
            r == self.deep_view().phase,
    {
        self.phase
    }

    /// The effect that the operation under way is waiting for.
    pub fn stage(&self) -> (r: Stage)
        ensures
            r == self.deep_view().stage,
    {
        self.stage
    }

    /// The process that is tracked as init, if one is.
    pub fn init_pid(&self) -> (r: Option<u32>)
        ensures
            r == self.deep_view().init_pid,
    {
        self.init_pid
    }

    /// What the last stop could not undo: one text for each image that
    /// resisted all three attempts to unmount it, with the mount point and
    /// what the unmount tool had to say.
    pub fn warnings(&self) -> (r: Vec<String>)
        ensures
            r.deep_view() == self.deep_view().warnings,
    {
        let mut copy = no_texts();
        extend_texts(&mut copy, &self.warnings);
        assert(copy.deep_view() =~= self.warnings.deep_view());
        copy
    }

    /// Whether anything is left to take down.
    pub fn needs_teardown(&self) -> (r: bool)
        ensures
            r == self.deep_view().needs_teardown(),
    {
        self.init_pid.is_some() || self.system_mounted || self.vendor_mounted
    }

    fn fail(&mut self, error: SandboxError) -> (next: Next)
        ensures
            (final(self).deep_view(), next.deep_view()) == old(self).deep_view().fail(
                error.deep_view(),
            ),
    {
        self.stage = Stage::Idle;
        Next::Failed(error)
    }

    /// Starts the container: validates and mounts the images, prepares the
    /// upper layer, and starts init in fresh namespaces.
    pub fn start(&mut self) -> (next: Next)
        ensures
            (final(self).deep_view(), next.deep_view()) == old(self).deep_view().start(),
    {
        self.stage = Stage::Validating;
        perform(self.images.probe())
    }

    fn after_validating(&mut self, outcome: &Outcome) -> (next: Next)
        ensures
            (final(self).deep_view(), next.deep_view()) == old(self).deep_view().after_validating(
                outcome.deep_view(),
            ),
    {
        let system = stat_of(outcome, 0);
        let vendor = stat_of(outcome, 1);
        match self.images.validate(&system, &vendor) {
            Ok(()) => {
                self.stage = Stage::CreatingDirs;
                self.phase = Phase::Mounting;
                perform(Effect::CreateDirs(prepare_prefix_dirs(&self.mounts)))
            },
            Err(error) => self.fail(error),
        }
    }

    /// Mounts the images, the system image first.
    fn fuse_mount_images(&mut self) -> (next: Next)
        ensures
            (final(self).deep_view(), next.deep_view()) == old(self).deep_view().fuse_mount_images(),
    {
        self.stage = Stage::MountingSystem;
        run(
            fuse2fs_command(
                self.images.system_img.as_str(),
                self.mounts.system_mount.as_str(),
                true,
            ),
        )
    }

    fn after_creating_dirs(&mut self, outcome: &Outcome) -> (next: Next)
        ensures
            (final(self).deep_view(), next.deep_view()) == old(
                self,
            ).deep_view().after_creating_dirs(outcome.deep_view()),
    {
        if outcome.is_done() {
            self.fuse_mount_images()
        } else {
            self.fail(directory_failure(outcome))
        }
    }

    fn after_mounting_system(&mut self, outcome: &Outcome) -> (next: Next)
        ensures
            (final(self).deep_view(), next.deep_view()) == old(
                self,
            ).deep_view().after_mounting_system(outcome.deep_view()),
    {
        match fuse2fs_mount(self.images.system_img.as_str(), outcome) {
            Ok(()) => {
                self.system_mounted = true;
                self.stage = Stage::MountingVendor;
                run(
                    fuse2fs_command(
                        self.images.vendor_img.as_str(),
                        self.mounts.vendor_mount.as_str(),
                        true,
                    ),
                )
            },
            Err(error) => self.fail(error),
        }
    }

    fn after_mounting_vendor(&mut self, outcome: &Outcome) -> (next: Next)
        ensures
            (final(self).deep_view(), next.deep_view()) == old(
                self,
            ).deep_view().after_mounting_vendor(outcome.deep_view()),
    {
        match fuse2fs_mount(self.images.vendor_img.as_str(), outcome) {
            Ok(()) => {
                self.vendor_mounted = true;
                self.phase = Phase::Assembling;
                self.stage = Stage::ListingApex;
                perform(Effect::ListDir(join(self.mounts.system_mount.as_str(), "system/apex")))
            },
            Err(error) => {
                self.carried = error.message;
                self.stage = Stage::Releasing(Attempt::Primary);
                run(fusermount_command(Attempt::Primary, self.mounts.system_mount.as_str()))
            },
        }
    }

    fn after_releasing(&mut self, attempt: Attempt, outcome: &Outcome) -> (next: Next)
        ensures
            (final(self).deep_view(), next.deep_view()) == old(self).deep_view().after_releasing(
                attempt,
                outcome.deep_view(),
            ),
    {
        match fusermount_unmount(
            attempt,
            self.mounts.system_mount.as_str(),
            self.diagnostic.as_str(),
            outcome,
        ) {
            Ok(Unmounting::Retry { attempt: following, diagnostic }) => {
                self.diagnostic = diagnostic;
                self.stage = Stage::Releasing(following);
                run(fusermount_command(following, self.mounts.system_mount.as_str()))
            },
            _ => {
                let mut message = String::from_str("Failed to FUSE-mount vendor.img: ");
                message.append(self.carried.as_str());
                self.system_mounted = false;
                self.carried = String::new();
                self.diagnostic = String::new();
                self.stage = Stage::Idle;
                Next::Failed(SandboxError::new(ErrorKind::Mount, message))
            },
        }
    }

    fn after_listing_apex(&mut self, outcome: &Outcome) -> (next: Next)
        ensures
            (final(self).deep_view(), next.deep_view()) == old(
                self,
            ).deep_view().after_listing_apex(outcome.deep_view()),
    {
        let policy_dir = join(self.mounts.overlay_upper.as_str(), "linkerconfig");
        match outcome {
            Outcome::Entries(entries) => {
                let mut dirs = prepare_apex_dirs(self.mounts.overlay_upper.as_str(), entries);
                push_text(&mut dirs, policy_dir.as_str());
                self.stage = Stage::PreparingUpper;
                perform(Effect::CreateDirs(dirs))
            },
            Outcome::Absent => {
                let mut dirs = no_texts();
                push_text(&mut dirs, policy_dir.as_str());
                assert(dirs.deep_view() =~= seq![linker_config_dir(self.mounts.overlay_upper@)]);
                self.stage = Stage::PreparingUpper;
                perform(Effect::CreateDirs(dirs))
            },
            _ => self.fail(failure(ErrorKind::Io, "Failed to read /system/apex directory")),
        }
    }

    fn after_preparing_upper(&mut self, outcome: &Outcome) -> (next: Next)
        ensures
            (final(self).deep_view(), next.deep_view()) == old(
                self,
            ).deep_view().after_preparing_upper(outcome.deep_view()),
    {
        if outcome.is_done() {
            self.stage = Stage::WritingLinkerConfig;
            perform(
                Effect::WriteFile {
                    path: linker_config_file(self.mounts.overlay_upper.as_str()),
                    contents: generate_linkerconfig(),
                },
            )
        } else {
            self.fail(directory_failure(outcome))
        }
    }

    fn after_writing_linker_config(&mut self, outcome: &Outcome) -> (next: Next)
        ensures
            (final(self).deep_view(), next.deep_view()) == old(
                self,
            ).deep_view().after_writing_linker_config(outcome.deep_view()),
    {
        if outcome.is_done() {
            self.stage = Stage::ProbingInit;
            self.phase = Phase::Launching;
            perform(Effect::Stat(init_paths(self.mounts.system_mount.as_str())))
        } else {
            self.fail(failure(ErrorKind::Io, "Failed to write linker config"))
        }
    }

    /// Starts init inside fresh namespaces, if the system image holds one.
    fn launch_init(&mut self, outcome: &Outcome) -> (next: Next)
        ensures
            (final(self).deep_view(), next.deep_view()) == old(
                self,
            ).deep_view().after_probing_init(outcome.deep_view()),
    {
        match choose_init(self.mounts.system_mount.as_str(), outcome) {
            Ok(init) => {
                let script = build_setup_script(&self.mounts, init);
                self.stage = Stage::Spawning;
                perform(Effect::Spawn(unshare_command(script.as_str())))
            },
            Err(error) => self.fail(error),
        }
    }

    fn after_spawning(&mut self, outcome: &Outcome) -> (next: Next)
        ensures
            (final(self).deep_view(), next.deep_view()) == old(self).deep_view().after_spawning(
                outcome.deep_view(),
            ),
    {
        match outcome {
            Outcome::Started(pid) => {
                self.init_pid = Some(*pid);
                self.overlay_mounted = true;
                self.stage = Stage::Settling(*pid);
                perform(Effect::Sleep { millis: SETTLE_MILLIS })
            },
            _ => self.fail(
                failure(
                    ErrorKind::Launch,
                    "Failed to spawn container via unshare (is unshare available?)",
                ),
            ),
        }
    }

    fn after_settling(&mut self, pid: u32) -> (next: Next)
        ensures
            (final(self).deep_view(), next.deep_view()) == old(self).deep_view().after_settling(
                pid,
            ),
    {
        self.stage = Stage::CheckingInit(pid);
        probe(pid)
    }

    fn after_checking_init(&mut self, pid: u32, outcome: &Outcome) -> (next: Next)
        ensures
            (final(self).deep_view(), next.deep_view()) == old(
                self,
            ).deep_view().after_checking_init(pid, outcome.deep_view()),
    {
        if outcome.is_done() {
            self.phase = Phase::Running;
            match &self.pid_file {
                Some(path) => {
                    let effect = Effect::WriteFile {
                        path: path.clone(),
                        contents: decimal_string(pid as u64),
                    };
                    self.stage = Stage::PersistingPid;
                    perform(effect)
                },
                None => {
                    self.stage = Stage::Idle;
                    Next::Done
                },
            }
        } else {
            self.stage = Stage::CollectingOutput;
            perform(Effect::CollectOutput)
        }
    }

    fn after_collecting_output(&mut self, outcome: &Outcome) -> (next: Next)
        ensures
            (final(self).deep_view(), next.deep_view()) == old(
                self,
            ).deep_view().after_collecting_output(outcome.deep_view()),
    {
        self.init_pid = None;
        self.overlay_mounted = false;
        match outcome {
            Outcome::Exited(output) => {
                let mut message = String::from_str("Init process died immediately.\nstdout: ");
                message.append(output.stdout.as_str());
                message.append("\nstderr: ");
                message.append(output.stderr.as_str());
                self.fail(SandboxError::new(ErrorKind::Launch, message))
            },
            _ => self.fail(failure(ErrorKind::Launch, "Init process died immediately.")),
        }
    }

    fn finish_stop(&mut self) -> (next: Next)
        ensures
            (final(self).deep_view(), next.deep_view()) == old(self).deep_view().finish_stop(),
    {
        self.overlay_mounted = false;
        match &self.pid_file {
            Some(path) => {
                let effect = Effect::RemoveFile(path.clone());
                self.stage = Stage::RemovingPidFile;
                perform(effect)
            },
            None => {
                self.stage = Stage::Idle;
                self.phase = Phase::Stopped;
                Next::Done
            },
        }
    }

    fn release_system(&mut self) -> (next: Next)
        ensures
            (final(self).deep_view(), next.deep_view()) == old(self).deep_view().release_system(),
    {
        if self.system_mounted {
            self.stage = Stage::UnmountingSystem(Attempt::Primary);
            run(fusermount_command(Attempt::Primary, self.mounts.system_mount.as_str()))
        } else {
            self.finish_stop()
        }
    }

    /// Unmounts the images that are mounted, the vendor image first.
    fn fuse_unmount_all(&mut self) -> (next: Next)
        ensures
            (final(self).deep_view(), next.deep_view()) == old(self).deep_view().fuse_unmount_all(),
    {
        self.diagnostic = String::new();
        self.warnings = no_texts();
        if self.vendor_mounted {
            self.stage = Stage::UnmountingVendor(Attempt::Primary);
            run(fusermount_command(Attempt::Primary, self.mounts.vendor_mount.as_str()))
        } else {
            self.release_system()
        }
    }

    /// Stops the container: ends init, unmounts the images and removes the
    /// pid file. What cannot be undone is passed over, and the stop goes on;
    /// an image that resisted all three attempts to unmount it is left as a
    /// warning, to be read with [`Container::warnings`].
    pub fn stop(&mut self) -> (next: Next)
        ensures
            (final(self).deep_view(), next.deep_view()) == old(self).deep_view().stop(),
    {
        self.phase = Phase::Stopping;
        match self.init_pid {
            Some(pid) => {
                self.init_pid = None;
                self.stage = Stage::Terminating(pid);
                perform(Effect::Signal { pid, signal: Signal::Terminate })
            },
            None => self.fuse_unmount_all(),
        }
    }

    fn after_terminating(&mut self, pid: u32, outcome: &Outcome) -> (next: Next)
        ensures
            (final(self).deep_view(), next.deep_view()) == old(
                self,
            ).deep_view().after_terminating(pid, outcome.deep_view()),
    {
        if outcome.is_done() {
            self.stage = Stage::GracePeriod(pid);
            perform(Effect::Sleep { millis: GRACE_MILLIS })
        } else {
            self.fuse_unmount_all()
        }
    }

    fn after_grace_period(&mut self, pid: u32) -> (next: Next)
        ensures
            (final(self).deep_view(), next.deep_view()) == old(
                self,
            ).deep_view().after_grace_period(pid),
    {
        self.stage = Stage::Killing(pid);
        perform(Effect::Signal { pid, signal: Signal::Kill })
    }

    fn after_killing(&mut self, pid: u32) -> (next: Next)
        ensures
            (final(self).deep_view(), next.deep_view()) == old(self).deep_view().after_killing(pid),
    {
        self.stage = Stage::Reaping(pid);
        perform(Effect::Reap { pid })
    }

    fn after_unmounting_vendor(&mut self, attempt: Attempt, outcome: &Outcome) -> (next: Next)
        ensures
            (final(self).deep_view(), next.deep_view()) == old(
                self,
            ).deep_view().after_unmounting_vendor(attempt, outcome.deep_view()),
    {
        match fusermount_unmount(
            attempt,
            self.mounts.vendor_mount.as_str(),
            self.diagnostic.as_str(),
            outcome,
        ) {
            Ok(Unmounting::Released) => {
                self.vendor_mounted = false;
                self.diagnostic = String::new();
                self.release_system()
            },
            Ok(Unmounting::Retry { attempt: following, diagnostic }) => {
                self.diagnostic = diagnostic;
                self.stage = Stage::UnmountingVendor(following);
                run(fusermount_command(following, self.mounts.vendor_mount.as_str()))
            },
            Err(error) => {
                let mut warning = String::from_str("vendor.img FUSE: ");
                warning.append(error.message.as_str());
                push_text(&mut self.warnings, warning.as_str());
                self.diagnostic = String::new();
                self.release_system()
            },
        }
    }

    fn after_unmounting_system(&mut self, attempt: Attempt, outcome: &Outcome) -> (next: Next)
        ensures
            (final(self).deep_view(), next.deep_view()) == old(
                self,
            ).deep_view().after_unmounting_system(attempt, outcome.deep_view()),
    {
        match fusermount_unmount(
            attempt,
            self.mounts.system_mount.as_str(),
            self.diagnostic.as_str(),
            outcome,
        ) {
            Ok(Unmounting::Released) => {
                self.system_mounted = false;
                self.diagnostic = String::new();
                self.finish_stop()
            },
            Ok(Unmounting::Retry { attempt: following, diagnostic }) => {
                self.diagnostic = diagnostic;
                self.stage = Stage::UnmountingSystem(following);
                run(fusermount_command(following, self.mounts.system_mount.as_str()))
            },
            Err(error) => {
                let mut warning = String::from_str("system.img FUSE: ");
                warning.append(error.message.as_str());
                push_text(&mut self.warnings, warning.as_str());
                self.diagnostic = String::new();
                self.finish_stop()
            },
        }
    }

    fn after_removing_pid_file(&mut self) -> (next: Next)
        ensures
            (final(self).deep_view(), next.deep_view()) == old(
                self,
            ).deep_view().after_removing_pid_file(),
    {
        self.stage = Stage::Idle;
        self.phase = Phase::Stopped;
        Next::Done
    }

    /// Takes down what is left of a container that is about to be dropped,
    /// as [`Container::stop`] does. Where nothing is left, nothing is done.
    pub fn discard(&mut self) -> (next: Next)
        ensures
            (final(self).deep_view(), next.deep_view()) == old(self).deep_view().discard(),
    {
        if self.needs_teardown() {
            self.stop()
        } else {
            self.stage = Stage::Idle;
            Next::Done
        }
    }

    fn run_inside(&mut self, stage: Stage, command: &str, args: &Vec<String>) -> (next: Next)
        ensures
            (final(self).deep_view(), next.deep_view()) == old(self).deep_view().run_inside(
                stage,
                command@,
                args.deep_view(),
            ),
    {
        match self.init_pid {
            Some(pid) => {
                self.stage = stage;
                run(nsenter_command(pid, command, args))
            },
            None => self.fail(failure(ErrorKind::Exec, "Container is not running (no init PID)")),
        }
    }

    /// Runs a command inside the running container. The operation ends with
    /// the command's output, whatever its exit status.
    pub fn exec_command(&mut self, command: &str, args: &Vec<String>) -> (next: Next)
        ensures
            (final(self).deep_view(), next.deep_view()) == old(self).deep_view().exec_command(
                command@,
                args.deep_view(),
            ),
    {
        self.run_inside(Stage::Executing, command, args)
    }

    fn after_executing(&mut self, outcome: &Outcome) -> (next: Next)
        ensures
            (final(self).deep_view(), next.deep_view()) == old(self).deep_view().after_executing(
                outcome.deep_view(),
            ),
    {
        match outcome {
            Outcome::Exited(output) => {
                let output = crate::host::CommandOutput {
                    status: output.status,
                    stdout: output.stdout.clone(),
                    stderr: output.stderr.clone(),
                };
                self.stage = Stage::Idle;
                Next::Output(output)
            },
            _ => self.fail(failure(ErrorKind::Exec, "Failed to execute nsenter")),
        }
    }

    /// Installs the package at `apk_path` into the running container.
    pub fn install_apk(&mut self, apk_path: &str) -> (next: Next)
        ensures
            (final(self).deep_view(), next.deep_view()) == old(self).deep_view().install_apk(
                apk_path@,
            ),
    {
        if self.init_pid.is_some() {
            let mut dirs = no_texts();
            let dir = join(self.mounts.overlay_upper.as_str(), "data/local/tmp");
            push_text(&mut dirs, dir.as_str());
            assert(dirs.deep_view() =~= seq![dir@]);
            self.carried = String::from_str(apk_path);
            self.stage = Stage::PreparingInstall;
            perform(Effect::CreateDirs(dirs))
        } else {
            self.fail(failure(ErrorKind::Exec, "Container is not running"))
        }
    }

    fn after_preparing_install(&mut self, outcome: &Outcome) -> (next: Next)
        ensures
            (final(self).deep_view(), next.deep_view()) == old(
                self,
            ).deep_view().after_preparing_install(outcome.deep_view()),
    {
        let from = self.carried.clone();
        self.carried = String::new();
        if outcome.is_done() {
            let dir = join(self.mounts.overlay_upper.as_str(), "data/local/tmp");
            let to = join(dir.as_str(), "install.apk");
            self.stage = Stage::CopyingApk;
            perform(Effect::CopyFile { from, to })
        } else {
            self.fail(directory_failure(outcome))
        }
    }

    fn after_copying_apk(&mut self, outcome: &Outcome) -> (next: Next)
        ensures
            (final(self).deep_view(), next.deep_view()) == old(self).deep_view().after_copying_apk(
                outcome.deep_view(),
            ),
    {
        if outcome.is_done() {
            let mut args = no_texts();
            push_text(&mut args, "install");
            push_text(&mut args, "-r");
            push_text(&mut args, "/data/local/tmp/install.apk");
            assert(args.deep_view() =~= install_args());
            self.run_inside(Stage::Installing, "pm", &args)
        } else {
            self.fail(failure(ErrorKind::Io, "Failed to copy APK into container overlay"))
        }
    }

    fn after_installing(&mut self, outcome: &Outcome) -> (next: Next)
        ensures
            (final(self).deep_view(), next.deep_view()) == old(self).deep_view().after_installing(
                outcome.deep_view(),
            ),
    {
        if outcome.ran_well() {
            self.stage = Stage::Idle;
            Next::Done
        } else {
            self.fail(failed_command("pm install failed: ", outcome))
        }
    }

    /// Starts the activity `activity` of the package `package`.
    pub fn launch_app(&mut self, package: &str, activity: &str) -> (next: Next)
        ensures
            (final(self).deep_view(), next.deep_view()) == old(self).deep_view().launch_app(
                package@,
                activity@,
            ),
    {
        let mut component = String::from_str(package);
        component.append("/");
        component.append(activity);
        let mut args = no_texts();
        push_text(&mut args, "start");
        push_text(&mut args, "-n");
        push_text(&mut args, component.as_str());
        assert(args.deep_view() =~= launch_args(package@, activity@));
        self.run_inside(Stage::LaunchingApp, "am", &args)
    }

    fn after_launching_app(&mut self, outcome: &Outcome) -> (next: Next)
        ensures
            (final(self).deep_view(), next.deep_view()) == old(
                self,
            ).deep_view().after_launching_app(outcome.deep_view()),
    {
        if outcome.ran_well() {
            self.stage = Stage::Idle;
            Next::Done
        } else {
            self.fail(failed_command("am start failed: ", outcome))
        }
    }

    /// Asks whether init is running: whether a process is tracked and a
    /// signal can be delivered to it. A process that has died and was not
    /// reaped yet still counts as running.
    pub fn is_running(&mut self) -> (next: Next)
        ensures
            (final(self).deep_view(), next.deep_view()) == old(self).deep_view().is_running(),
    {
        match self.init_pid {
            Some(pid) => {
                self.stage = Stage::Probing;
                probe(pid)
            },
            None => {
                self.stage = Stage::Idle;
                Next::Answer(false)
            },
        }
    }

    fn after_probing(&mut self, outcome: &Outcome) -> (next: Next)
        ensures
            (final(self).deep_view(), next.deep_view()) == old(self).deep_view().after_probing(
                outcome.deep_view(),
            ),
    {
        self.stage = Stage::Idle;
        Next::Answer(outcome.is_done())
    }

    /// Waits until the contained system reports a finished boot, for
    /// `timeout_secs` seconds at most.
    pub fn wait_for_boot(&mut self, timeout_secs: u64) -> (next: Next)
        ensures
            (final(self).deep_view(), next.deep_view()) == old(self).deep_view().wait_for_boot(
                timeout_secs,
            ),
    {
        self.stage = Stage::BootStarting { timeout_secs };
        perform(Effect::ReadClock)
    }

    fn after_boot_starting(&mut self, timeout_secs: u64, outcome: &Outcome) -> (next: Next)
        ensures
            (final(self).deep_view(), next.deep_view()) == old(
                self,
            ).deep_view().after_boot_starting(timeout_secs, outcome.deep_view()),
    {
        self.stage = Stage::BootClock { timeout_secs, since: clock_reading(outcome) };
        perform(Effect::ReadClock)
    }

    fn after_boot_clock(&mut self, timeout_secs: u64, since: u64, outcome: &Outcome) -> (next:
        Next)
        ensures
            (final(self).deep_view(), next.deep_view()) == old(self).deep_view().after_boot_clock(
                timeout_secs,
                since,
                outcome.deep_view(),
            ),
    {
        if has_timed_out(timeout_secs, since, clock_reading(outcome)) {
            let mut message = String::from_str("Timeout waiting for Android system to boot after ");
            push_decimal(&mut message, timeout_secs);
            message.append("s");
            self.fail(SandboxError::new(ErrorKind::BootTimeout, message))
        } else {
            match self.init_pid {
                Some(pid) => {
                    self.stage = Stage::BootProbe { timeout_secs, since, pid };
                    probe(pid)
                },
                None => self.fail(
                    failure(ErrorKind::Launch, "Container init process died during boot"),
                ),
            }
        }
    }

    fn after_boot_probe(
        &mut self,
        timeout_secs: u64,
        since: u64,
        pid: u32,
        outcome: &Outcome,
    ) -> (next: Next)
        ensures
            (final(self).deep_view(), next.deep_view()) == old(self).deep_view().after_boot_probe(
                timeout_secs,
                since,
                pid,
                outcome.deep_view(),
            ),
    {
        if outcome.is_done() {
            let mut args = no_texts();
            push_text(&mut args, "sys.boot_completed");
            assert(args.deep_view() =~= seq!["sys.boot_completed"@]);
            self.stage = Stage::BootQuery { timeout_secs, since };
            run(nsenter_command(pid, "getprop", &args))
        } else {
            self.fail(failure(ErrorKind::Launch, "Container init process died during boot"))
        }
    }

    fn after_boot_query(&mut self, timeout_secs: u64, since: u64, outcome: &Outcome) -> (next:
        Next)
        ensures
            (final(self).deep_view(), next.deep_view()) == old(self).deep_view().after_boot_query(
                timeout_secs,
                since,
                outcome.deep_view(),
            ),
    {
        let completed = match outcome {
            Outcome::Exited(output) => {
                let value = trim(output.stdout.as_str());
                same_text(value.as_str(), "1")
            },
            _ => false,
        };
        if completed {
            self.stage = Stage::Idle;
            Next::Done
        } else {
            self.stage = Stage::BootSleep { timeout_secs, since };
            perform(Effect::Sleep { millis: POLL_MILLIS })
        }
    }

    fn after_boot_sleep(&mut self, timeout_secs: u64, since: u64) -> (next: Next)
        ensures
            (final(self).deep_view(), next.deep_view()) == old(self).deep_view().after_boot_sleep(
                timeout_secs,
                since,
            ),
    {
        self.stage = Stage::BootClock { timeout_secs, since };
        perform(Effect::ReadClock)
    }

    /// Carries the operation under way on with the outcome of the effect that
    /// it asked for. With no operation under way nothing is done.
    pub fn resume(&mut self, outcome: Outcome) -> (next: Next)
        ensures
            (final(self).deep_view(), next.deep_view()) == old(self).deep_view().resume(
                outcome.deep_view(),
            ),
    {
        match self.stage {
            Stage::Idle => Next::Done,
            Stage::Validating => self.after_validating(&outcome),
            Stage::CreatingDirs => self.after_creating_dirs(&outcome),
            Stage::MountingSystem => self.after_mounting_system(&outcome),
            Stage::MountingVendor => self.after_mounting_vendor(&outcome),
            Stage::Releasing(attempt) => self.after_releasing(attempt, &outcome),
            Stage::ListingApex => self.after_listing_apex(&outcome),
            Stage::PreparingUpper => self.after_preparing_upper(&outcome),
            Stage::WritingLinkerConfig => self.after_writing_linker_config(&outcome),
            Stage::ProbingInit => self.launch_init(&outcome),
            Stage::Spawning => self.after_spawning(&outcome),
            Stage::Settling(pid) => self.after_settling(pid),
            Stage::CheckingInit(pid) => self.after_checking_init(pid, &outcome),
            Stage::CollectingOutput => self.after_collecting_output(&outcome),
            Stage::PersistingPid => {
                self.stage = Stage::Idle;
                Next::Done
            },
            Stage::Terminating(pid) => self.after_terminating(pid, &outcome),
            Stage::GracePeriod(pid) => self.after_grace_period(pid),
            Stage::Killing(pid) => self.after_killing(pid),
            Stage::Reaping(_) => self.fuse_unmount_all(),
            Stage::UnmountingVendor(attempt) => self.after_unmounting_vendor(attempt, &outcome),
            Stage::UnmountingSystem(attempt) => self.after_unmounting_system(attempt, &outcome),
            Stage::RemovingPidFile => self.after_removing_pid_file(),
            Stage::Executing => self.after_executing(&outcome),
            Stage::PreparingInstall => self.after_preparing_install(&outcome),
            Stage::CopyingApk => self.after_copying_apk(&outcome),
            Stage::Installing => self.after_installing(&outcome),
            Stage::LaunchingApp => self.after_launching_app(&outcome),
            Stage::Probing => self.after_probing(&outcome),
            Stage::BootStarting { timeout_secs } => self.after_boot_starting(timeout_secs, &outcome),
            Stage::BootClock { timeout_secs, since } => self.after_boot_clock(
                timeout_secs,
                since,
                &outcome,
            ),
            Stage::BootProbe { timeout_secs, since, pid } => self.after_boot_probe(
                timeout_secs,
                since,
                pid,
                &outcome,
            ),
            Stage::BootQuery { timeout_secs, since } => self.after_boot_query(
                timeout_secs,
                since,
                &outcome,
            ),
            Stage::BootSleep { timeout_secs, since } => self.after_boot_sleep(timeout_secs, since),
        }
    }
}

} // verus!
