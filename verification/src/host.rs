//! The boundary between the library and the machine it runs on.
//!
//! The library never touches the filesystem, a process or the kernel. It hands
//! its host an [`Effect`] to perform and is told the [`Outcome`]; from the two
//! it decides what comes [`Next`]. Each type has a model over `Seq<char>`, and
//! the contracts of the library speak of the models.

use vstd::prelude::*;

use crate::apk::Abi;
use crate::binderfs::BinderfsDevice;
use crate::binderfs::BinderfsDeviceModel;
use crate::error::ErrorKind;
use crate::error::ErrorModel;
use crate::error::SandboxError;

verus! {

/// A subprocess at the level of its argument vector.
#[derive(Debug, Clone, PartialEq, Eq)]
pub struct Command {
    /// The program, looked up on the search path.
    pub program: String,
    /// The arguments behind the program name.
    pub args: Vec<String>,
    /// Variables set in addition to the inherited environment.
    pub env: Vec<(String, String)>,
}

/// What a [`Command`] is, as plain sequences.
pub struct CommandModel {
    pub program: Seq<char>,
    pub args: Seq<Seq<char>>,
    pub env: Seq<(Seq<char>, Seq<char>)>,
}

impl DeepView for Command {
    type V = CommandModel;

    open spec fn deep_view(&self) -> CommandModel {
        CommandModel {
            program: self.program@,
            args: self.args.deep_view(),
            env: self.env.deep_view(),
        }
    }
}

/// What a subprocess left behind when it ended.
#[derive(Debug, Clone, PartialEq, Eq)]
pub struct CommandOutput {
    /// Its exit status, where it exited; none where a signal ended it.
    pub status: Option<i32>,
    /// Its standard output, decoded leniently.
    pub stdout: String,
    /// Its standard error, decoded leniently.
    pub stderr: String,
}

/// What a [`CommandOutput`] is, as plain sequences.
pub struct CommandOutputModel {
    pub status: Option<i32>,
    pub stdout: Seq<char>,
    pub stderr: Seq<char>,
}

impl CommandOutputModel {
    /// The subprocess exited with status zero.
    pub open spec fn success(self) -> bool {
        self.status == Some(0i32)
    }
}

impl DeepView for CommandOutput {
    type V = CommandOutputModel;

    open spec fn deep_view(&self) -> CommandOutputModel {
        CommandOutputModel { status: self.status, stdout: self.stdout@, stderr: self.stderr@ }
    }
}

impl CommandOutput {
    /// Tells whether the subprocess exited with status zero.
    pub fn success(&self) -> (r: bool)
        ensures
            r == self.deep_view().success(),
    {
        match self.status {
            Some(code) => code == 0,
            None => false,
        }
    }
}

/// What the host found at a path.
#[derive(Debug, Clone, Copy, PartialEq, Eq, Structural)]
pub struct PathStat {
    /// Whether anything is there.
    pub exists: bool,
    /// Whether it is a directory.
    pub is_dir: bool,
    /// Its length in bytes.
    pub size: u64,
    /// Its permission bits.
    pub mode: u32,
}

/// One entry of a directory listing.
#[derive(Debug, Clone, PartialEq, Eq)]
pub struct DirEntry {
    /// The entry's file name.
    pub name: String,
    /// Whether the entry is a directory.
    pub is_dir: bool,
}

/// What a [`DirEntry`] is, as plain values.
pub struct DirEntryModel {
    pub name: Seq<char>,
    pub is_dir: bool,
}

impl DeepView for DirEntry {
    type V = DirEntryModel;

    open spec fn deep_view(&self) -> DirEntryModel {
        DirEntryModel { name: self.name@, is_dir: self.is_dir }
    }
}

/// What is sent to a process.
#[derive(Debug, Clone, Copy, PartialEq, Eq, Structural)]
pub enum Signal {
    /// Nothing: the delivery check alone tells whether the process is there.
    Probe,
    /// The request to terminate.
    Terminate,
    /// The kill that cannot be caught.
    Kill,
}

/// A kernel namespace that a process can leave for a fresh one.
#[derive(Debug, Clone, Copy, PartialEq, Eq, Structural)]
pub enum Namespace {
    /// User and group identities.
    User,
    /// The mount table.
    Mount,
}

/// The flags of a mount.
#[derive(Debug, Clone, Copy, PartialEq, Eq, Structural)]
pub struct MountFlags {
    pub bind: bool,
    pub recursive: bool,
    pub no_dev: bool,
    pub no_exec: bool,
    pub no_suid: bool,
}

/// One call of the mount system call.
#[derive(Debug, Clone, PartialEq, Eq)]
pub struct MountRequest {
    pub source: Option<String>,
    pub target: String,
    pub fstype: Option<String>,
    pub flags: MountFlags,
}

/// What a [`MountRequest`] is, as plain values.
pub struct MountRequestModel {
    pub source: Option<Seq<char>>,
    pub target: Seq<char>,
    pub fstype: Option<Seq<char>>,
    pub flags: MountFlags,
}

impl DeepView for MountRequest {
    type V = MountRequestModel;

    open spec fn deep_view(&self) -> MountRequestModel {
        MountRequestModel {
            source: self.source.deep_view(),
            target: self.target@,
            fstype: self.fstype.deep_view(),
            flags: self.flags,
        }
    }
}

/// Something the host is asked to do.
#[derive(Debug, Clone, PartialEq, Eq)]
pub enum Effect {
    /// Look at each path; answered by [`Outcome::Stats`], one entry per path.
    Stat(Vec<String>),
    /// List a directory; answered by [`Outcome::Entries`], or by
    /// [`Outcome::Absent`] where nothing is at the path.
    ListDir(String),
    /// Create each directory with its missing parents, in order.
    CreateDirs(Vec<String>),
    /// Write a file, replacing what was there.
    WriteFile { path: String, contents: String },
    /// Copy a file.
    CopyFile { from: String, to: String },
    /// Remove a file.
    RemoveFile(String),
    /// Remove a directory with all that is in it.
    RemoveTree(String),
    /// Unpack the native libraries of an application archive for one
    /// architecture into a directory.
    ExtractLibraries { archive: String, abi: Abi, target: String },
    /// Create a symbolic link at `link` that points to `target`.
    Symlink { target: String, link: String },
    /// Set the permission bits of a path.
    SetMode { path: String, mode: u32 },
    /// Run a command to its end; answered by [`Outcome::Exited`].
    Run(Command),
    /// Start a command with its output captured and leave it running;
    /// answered by [`Outcome::Started`].
    Spawn(Command),
    /// Wait for the command started last and take its output; answered by
    /// [`Outcome::Exited`].
    CollectOutput,
    /// Send a signal to a process.
    Signal { pid: u32, signal: Signal },
    /// Reap a process if it has ended, without waiting.
    Reap { pid: u32 },
    /// Pause.
    Sleep { millis: u64 },
    /// Read a clock that never runs backwards; answered by [`Outcome::Time`].
    ReadClock,
    /// Leave a namespace for a fresh one.
    Unshare(Namespace),
    /// Mount a filesystem.
    Mount(MountRequest),
    /// Unmount what is mounted at a path.
    Unmount(String),
    /// Change the working directory.
    ChangeDir(String),
    /// Change the root directory.
    ChangeRoot(String),
    /// Send standard output and standard error to a file created at the path.
    RedirectOutput(String),
    /// Replace the process image. With `replace_env` the command's variables
    /// are the whole environment; without it the environment is inherited.
    Execute { command: Command, replace_env: bool },
    /// Open the control device of a binder filesystem for the additions that
    /// follow.
    OpenControl(String),
    /// Ask the control device opened last to create a device.
    AddBinderDevice(BinderfsDevice),
}

/// What an [`Effect`] is, as plain values.
pub enum EffectModel {
    Stat(Seq<Seq<char>>),
    ListDir(Seq<char>),
    CreateDirs(Seq<Seq<char>>),
    WriteFile { path: Seq<char>, contents: Seq<char> },
    CopyFile { from: Seq<char>, to: Seq<char> },
    RemoveFile(Seq<char>),
    RemoveTree(Seq<char>),
    ExtractLibraries { archive: Seq<char>, abi: Abi, target: Seq<char> },
    Symlink { target: Seq<char>, link: Seq<char> },
    SetMode { path: Seq<char>, mode: u32 },
    Run(CommandModel),
    Spawn(CommandModel),
    CollectOutput,
    Signal { pid: u32, signal: Signal },
    Reap { pid: u32 },
    Sleep { millis: u64 },
    ReadClock,
    Unshare(Namespace),
    Mount(MountRequestModel),
    Unmount(Seq<char>),
    ChangeDir(Seq<char>),
    ChangeRoot(Seq<char>),
    RedirectOutput(Seq<char>),
    Execute { command: CommandModel, replace_env: bool },
    OpenControl(Seq<char>),
    AddBinderDevice(BinderfsDeviceModel),
}

impl DeepView for Effect {
    type V = EffectModel;

    open spec fn deep_view(&self) -> EffectModel {
        match *self {
            Effect::Stat(paths) => EffectModel::Stat(paths.deep_view()),
            Effect::ListDir(path) => EffectModel::ListDir(path@),
            Effect::CreateDirs(paths) => EffectModel::CreateDirs(paths.deep_view()),
            Effect::WriteFile { path, contents } => EffectModel::WriteFile {
                path: path@,
                contents: contents@,
            },
            Effect::CopyFile { from, to } => EffectModel::CopyFile { from: from@, to: to@ },
            Effect::RemoveFile(path) => EffectModel::RemoveFile(path@),
            Effect::RemoveTree(path) => EffectModel::RemoveTree(path@),
            Effect::ExtractLibraries { archive, abi, target } => EffectModel::ExtractLibraries {
                archive: archive@,
                abi,
                target: target@,
            },
            Effect::Symlink { target, link } => EffectModel::Symlink {
                target: target@,
                link: link@,
            },
            Effect::SetMode { path, mode } => EffectModel::SetMode { path: path@, mode },
            Effect::Run(command) => EffectModel::Run(command.deep_view()),
            Effect::Spawn(command) => EffectModel::Spawn(command.deep_view()),
            Effect::CollectOutput => EffectModel::CollectOutput,
            Effect::Signal { pid, signal } => EffectModel::Signal { pid, signal },
            Effect::Reap { pid } => EffectModel::Reap { pid },
            Effect::Sleep { millis } => EffectModel::Sleep { millis },
            Effect::ReadClock => EffectModel::ReadClock,
            Effect::Unshare(namespace) => EffectModel::Unshare(namespace),
            Effect::Mount(request) => EffectModel::Mount(request.deep_view()),
            Effect::Unmount(path) => EffectModel::Unmount(path@),
            Effect::ChangeDir(path) => EffectModel::ChangeDir(path@),
            Effect::ChangeRoot(path) => EffectModel::ChangeRoot(path@),
            Effect::RedirectOutput(path) => EffectModel::RedirectOutput(path@),
            Effect::Execute { command, replace_env } => EffectModel::Execute {
                command: command.deep_view(),
                replace_env,
            },
            Effect::OpenControl(path) => EffectModel::OpenControl(path@),
            Effect::AddBinderDevice(device) => EffectModel::AddBinderDevice(device.deep_view()),
        }
    }
}

/// What the host reports of an [`Effect`].
#[derive(Debug, Clone, PartialEq, Eq)]
pub enum Outcome {
    /// It was performed.
    Done,
    /// It was not, for the reason given.
    Failed(String),
    /// Nothing is at the path.
    Absent,
    /// What was found at each path.
    Stats(Vec<PathStat>),
    /// What the directory holds.
    Entries(Vec<DirEntry>),
    /// The command ran and ended.
    Exited(CommandOutput),
    /// The command runs, under this process id.
    Started(u32),
    /// The clock's reading, in milliseconds.
    Time(u64),
}

/// What an [`Outcome`] is, as plain values.
pub enum OutcomeModel {
    Done,
    Failed(Seq<char>),
    Absent,
    Stats(Seq<PathStat>),
    Entries(Seq<DirEntryModel>),
    Exited(CommandOutputModel),
    Started(u32),
    Time(u64),
}

impl DeepView for Outcome {
    type V = OutcomeModel;

    open spec fn deep_view(&self) -> OutcomeModel {
        match *self {
            Outcome::Done => OutcomeModel::Done,
            Outcome::Failed(reason) => OutcomeModel::Failed(reason@),
            Outcome::Absent => OutcomeModel::Absent,
            Outcome::Stats(stats) => OutcomeModel::Stats(stats@),
            Outcome::Entries(entries) => OutcomeModel::Entries(entries.deep_view()),
            Outcome::Exited(output) => OutcomeModel::Exited(output.deep_view()),
            Outcome::Started(pid) => OutcomeModel::Started(pid),
            Outcome::Time(millis) => OutcomeModel::Time(millis),
        }
    }
}

impl OutcomeModel {
    /// A command ran and exited with status zero.
    pub open spec fn ran_well(self) -> bool {
        self matches OutcomeModel::Exited(output) && output.success()
    }

    /// The host's reason for a failure, empty where it gave none.
    pub open spec fn reason(self) -> Seq<char> {
        match self {
            OutcomeModel::Failed(reason) => reason,
            _ => Seq::empty(),
        }
    }

    /// Whether something was found at the `i`-th path of a [`Effect::Stat`].
    pub open spec fn found(self, i: int) -> bool {
        self matches OutcomeModel::Stats(stats) && 0 <= i < stats.len() && stats[i].exists
    }
}

impl Outcome {
    /// Tells whether a command ran and exited with status zero.
    pub fn ran_well(&self) -> (r: bool)
        ensures
            r == self.deep_view().ran_well(),
    {
        match self {
            Outcome::Exited(output) => output.success(),
            _ => false,
        }
    }

    /// Tells whether the effect was performed.
    pub fn is_done(&self) -> (r: bool)
        ensures
            r == (self.deep_view() is Done),
    {
        match self {
            Outcome::Done => true,
            _ => false,
        }
    }

    /// The host's reason for a failure, empty where it gave none.
    pub fn reason(&self) -> (r: String)
        ensures
            r@ == self.deep_view().reason(),
    {
        match self {
            Outcome::Failed(reason) => reason.clone(),
            _ => String::new(),
        }
    }

    /// Tells whether something was found at the `i`-th path.
    pub fn found(&self, i: usize) -> (r: bool)
        ensures
            r == self.deep_view().found(i as int),
    {
        match self {
            Outcome::Stats(stats) => i < stats.len() && stats[i].exists,
            _ => false,
        }
    }
}

/// What an operation does after an outcome: ask for one more effect, or end.
#[derive(Debug, Clone, PartialEq, Eq)]
pub enum Next {
    /// The host performs the effect and resumes the operation with its outcome.
    Perform(Effect),
    /// The operation succeeded.
    Done,
    /// The operation succeeded with an answer.
    Answer(bool),
    /// The operation succeeded with the output of a command.
    Output(CommandOutput),
    /// The operation failed.
    Failed(SandboxError),
}

/// What a [`Next`] is, as plain values.
pub enum NextModel {
    Perform(EffectModel),
    Done,
    Answer(bool),
    Output(CommandOutputModel),
    Failed(ErrorModel),
}

impl DeepView for Next {
    type V = NextModel;

    open spec fn deep_view(&self) -> NextModel {
        match *self {
            Next::Perform(effect) => NextModel::Perform(effect.deep_view()),
            Next::Done => NextModel::Done,
            Next::Answer(answer) => NextModel::Answer(answer),
            Next::Output(output) => NextModel::Output(output.deep_view()),
            Next::Failed(error) => NextModel::Failed(error.deep_view()),
        }
    }
}

impl NextModel {
    /// The operation has ended, well or not.
    pub open spec fn ended(self) -> bool {
        !(self is Perform)
    }
}

/// One effect of a plan, with what its failure means.
#[derive(Debug, Clone, PartialEq, Eq)]
pub struct Step {
    /// What is to be done.
    pub effect: Effect,
    /// Whether the plan stops when this cannot be done.
    pub required: bool,
    /// The kind of failure that it is when this cannot be done.
    pub kind: ErrorKind,
    /// What to say when this cannot be done.
    pub what: String,
}

/// What a [`Step`] is, as plain values.
pub struct StepModel {
    pub effect: EffectModel,
    pub required: bool,
    pub kind: ErrorKind,
    pub what: Seq<char>,
}

impl DeepView for Step {
    type V = StepModel;

    open spec fn deep_view(&self) -> StepModel {
        StepModel {
            effect: self.effect.deep_view(),
            required: self.required,
            kind: self.kind,
            what: self.what@,
        }
    }
}

} // verus!
