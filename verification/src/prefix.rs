//! The prefix of an application: the host directory that holds its data and
//! that its processes see as their root.

use vstd::prelude::*;
use vstd::string::StringExecFns;

use crate::apk::Abi;
use crate::apk::ApkInfo;
use crate::error::ErrorKind;
use crate::error::ErrorModel;
use crate::error::SandboxError;
use crate::host::Command;
use crate::host::CommandModel;
use crate::host::Effect;
use crate::host::EffectModel;
use crate::host::Outcome;
use crate::host::OutcomeModel;
use crate::host::PathStat;
use crate::host::Step;
use crate::host::StepModel;
use crate::lifecycle::stat_at;
use crate::path::join;
use crate::path::joined_path;
use crate::plan::must;
use crate::plan::required;
use crate::sandbox::basic_mounts;
use crate::sandbox::bind_mount;
use crate::sandbox::bind_request;
use crate::sandbox::chroot;
use crate::sandbox::enter_namespaces;
use crate::sandbox::namespace_entry;
use crate::sandbox::root_change;
use crate::sandbox::setup_mounts;
use crate::text::push_signed_decimal;
use crate::text::signed_decimal;
use crate::tools::extend_texts;
use crate::tools::no_texts;
use crate::tools::push_text;

verus! {

/// The permission bits of every directory of a prefix.
pub const DIRECTORY_MODE: u32 = 0o755;

/// The directories of a prefix, below its root.
pub open spec fn default_dirs() -> Seq<Seq<char>> {
    seq![
        "root"@,
        "system"@,
        "data"@,
        "data/app"@,
        "data/data"@,
        "dev"@,
        "proc"@,
        "sys"@,
        "tmp"@,
        "apex"@,
        "logs"@,
    ]
}

/// Lists the directories of a prefix.
pub fn default_prefix_dirs() -> (dirs: Vec<String>)
    ensures
        dirs.deep_view() == default_dirs(),
{
    let mut dirs = no_texts();
    push_text(&mut dirs, "root");
    push_text(&mut dirs, "system");
    push_text(&mut dirs, "data");
    push_text(&mut dirs, "data/app");
    push_text(&mut dirs, "data/data");
    push_text(&mut dirs, "dev");
    push_text(&mut dirs, "proc");
    push_text(&mut dirs, "sys");
    push_text(&mut dirs, "tmp");
    push_text(&mut dirs, "apex");
    push_text(&mut dirs, "logs");
    assert(dirs.deep_view() =~= default_dirs());
    dirs
}

/// The prefix of one application.
#[derive(Debug, Clone, PartialEq, Eq)]
pub struct Prefix {
    pub root: String,
}

/// How a child process ended.
#[derive(Debug, Clone, PartialEq, Eq)]
pub enum ChildStatus {
    /// It exited with this code.
    Exited(i32),
    /// It was killed by the signal of this name.
    Signaled(String),
    /// It was stopped or continued, and has not ended.
    Other,
}

/// What the host found of shells.
#[derive(Debug, Clone, PartialEq, Eq)]
pub struct ShellFacts {
    /// Whether the prefix has the runtime's shell.
    pub runtime_sh: bool,
    /// Whether the prefix has busybox.
    pub busybox: bool,
    /// Whether the host has `/bin/sh`.
    pub host_sh: bool,
    /// The user's shell, where the environment names one that is there.
    pub user_shell: Option<String>,
}

/// What the host found before a process is sent into a sandbox.
#[derive(Debug, Clone, Copy, PartialEq, Eq, Structural)]
pub struct SandboxFacts {
    /// The real user of the process.
    pub uid: u32,
    /// The real group of the process.
    pub gid: u32,
    /// Whether the payload has a system tree.
    pub payload_system: bool,
    /// Whether the host has `/bin`.
    pub host_bin: bool,
}

/// Something that is no directory is where a directory of the prefix
/// should be.
pub open spec fn in_the_way(stat: PathStat) -> bool {
    stat.exists && !stat.is_dir
}

/// The failure for a path that is in the way.
pub open spec fn not_a_directory(path: Seq<char>) -> ErrorModel {
    ErrorModel { kind: ErrorKind::Prefix, message: "prefix path is not a directory: "@ + path }
}

/// The step that creates the directory `path`.
pub open spec fn dir_step(path: Seq<char>) -> StepModel {
    must(EffectModel::CreateDirs(seq![path]), ErrorKind::Io, "Failed to create directory"@)
}

/// The step that gives a directory the permission bits of a prefix.
pub open spec fn mode_step(path: Seq<char>) -> StepModel {
    must(
        EffectModel::SetMode { path, mode: DIRECTORY_MODE },
        ErrorKind::Io,
        "Failed to set permissions"@,
    )
}

/// What it takes to have the directory `path` with the right permission
/// bits: a directory that is not there is created and given them; one that
/// is there is given them where it has others.
pub open spec fn directory_steps(path: Seq<char>, stat: PathStat) -> Seq<StepModel> {
    if !stat.exists {
        seq![dir_step(path), mode_step(path)]
    } else if stat.mode & 0o777 != DIRECTORY_MODE {
        seq![mode_step(path)]
    } else {
        Seq::empty()
    }
}

/// The steps for the first `n` directories of a layout.
pub open spec fn layout_steps(
    root: Seq<char>,
    dirs: Seq<Seq<char>>,
    found: OutcomeModel,
    n: int,
) -> Seq<StepModel>
    decreases n,
{
    if n <= 0 {
        Seq::empty()
    } else {
        layout_steps(root, dirs, found, n - 1) + directory_steps(
            joined_path(root, dirs[n - 1]),
            stat_at(found, n - 1),
        )
    }
}

/// The shell to run, with its arguments: the runtime's own, else busybox as
/// a shell, else the host's, else the user's.
pub open spec fn shell_choice(facts: ShellFacts) -> Option<(Seq<char>, Seq<Seq<char>>)> {
    if facts.runtime_sh {
        Some(("/system/bin/sh"@, Seq::empty()))
    } else if facts.busybox {
        Some(("/system/bin/busybox"@, seq!["sh"@]))
    } else if facts.host_sh {
        Some(("/bin/sh"@, Seq::empty()))
    } else {
        match facts.user_shell {
            Some(shell) => Some((shell@, Seq::empty())),
            None => None,
        }
    }
}

/// The step that makes `source` appear at `target`.
pub open spec fn bind_step(source: Seq<char>, target: Seq<char>) -> StepModel {
    must(
        EffectModel::Mount(bind_request(source, target)),
        ErrorKind::Mount,
        "Failed to bind-mount "@ + source,
    )
}

/// The mounts of a sandbox below `root`: the system tree of the payload and
/// the programs of the host, where they are there, and the basic mounts.
pub open spec fn sandbox_mounts(root: Seq<char>, payload: Seq<char>, facts: SandboxFacts) -> Seq<
    StepModel,
> {
    let system = if facts.payload_system {
        seq![bind_step(joined_path(payload, "system"@), joined_path(root, "system"@))]
    } else {
        Seq::empty()
    };
    let bin = if facts.host_bin {
        seq![dir_step(joined_path(root, "bin"@)), bind_step("/bin"@, joined_path(root, "bin"@))]
    } else {
        Seq::empty()
    };
    system + bin + basic_mounts(root)
}

/// The step that sends the output of the process to the log of the prefix.
pub open spec fn log_step(root: Seq<char>) -> StepModel {
    must(
        EffectModel::RedirectOutput(joined_path(root, "logs/app.log"@)),
        ErrorKind::Io,
        "Failed to redirect output"@,
    )
}

/// The step in which the process becomes `command`, with the command as
/// the first of its arguments.
pub open spec fn exec_step(command: Seq<char>, args: Seq<Seq<char>>) -> StepModel {
    must(
        EffectModel::Execute {
            command: CommandModel { program: command, args: seq![command] + args, env: Seq::empty() },
            replace_env: false,
        },
        ErrorKind::Exec,
        "Failed to execute "@ + command,
    )
}

/// What a process does once it was forked for a sandbox, in this order: it
/// enters the namespaces, makes the mounts, sends its output to the log if
/// asked to, changes root into the prefix, and becomes the command.
pub open spec fn child_plan(
    root: Seq<char>,
    payload: Seq<char>,
    command: Seq<char>,
    args: Seq<Seq<char>>,
    redirect: bool,
    facts: SandboxFacts,
) -> Seq<StepModel> {
    let log = if redirect {
        seq![log_step(root)]
    } else {
        Seq::empty()
    };
    namespace_entry(facts.uid, facts.gid) + sandbox_mounts(root, payload, facts) + log
        + root_change(root) + seq![exec_step(command, args)]
}

/// The architecture whose libraries are unpacked: the one of this machine
/// where the archive has it, else the first that it has.
pub open spec fn preferred_abi(abis: Seq<Abi>) -> Option<Abi> {
    if abis.contains(Abi::X86_64) {
        Some(Abi::X86_64)
    } else if abis.len() > 0 {
        Some(abis[0])
    } else {
        None
    }
}

/// The steps that install an archive into a prefix: the archive is copied
/// to the directory of its package, its libraries for the preferred
/// architecture are unpacked beside it, and the package gets a data
/// directory.
pub open spec fn install_steps(
    root: Seq<char>,
    apk_path: Seq<char>,
    package: Seq<char>,
    abis: Seq<Abi>,
) -> Seq<StepModel> {
    let app_dir = joined_path(joined_path(root, "data/app"@), package);
    let copy = seq![
        dir_step(app_dir),
        must(
            EffectModel::CopyFile { from: apk_path, to: joined_path(app_dir, "base.apk"@) },
            ErrorKind::Io,
            "Failed to copy the archive"@,
        ),
    ];
    let libs = match preferred_abi(abis) {
        Some(abi) => {
            let lib_dir = joined_path(joined_path(app_dir, "lib"@), abi.text());
            seq![
                dir_step(lib_dir),
                must(
                    EffectModel::ExtractLibraries { archive: apk_path, abi, target: lib_dir },
                    ErrorKind::Io,
                    "Failed to extract libraries"@,
                ),
            ]
        },
        None => Seq::empty(),
    };
    copy + libs + seq![dir_step(joined_path(joined_path(root, "data/data"@), package))]
}

/// The step that removes a directory with all that is in it.
pub open spec fn removal_step(path: Seq<char>) -> StepModel {
    must(EffectModel::RemoveTree(path), ErrorKind::Io, "Failed to remove directory"@)
}

/// The removals of a reset: the data and the logs, each where it is there.
pub open spec fn reset_steps(root: Seq<char>, found: OutcomeModel) -> Seq<StepModel> {
    (if stat_at(found, 0).exists {
        seq![removal_step(joined_path(root, "data"@))]
    } else {
        Seq::empty()
    }) + (if stat_at(found, 1).exists {
        seq![removal_step(joined_path(root, "logs"@))]
    } else {
        Seq::empty()
    })
}

fn one_dir(path: &str) -> (step: Step)
    ensures
        step.deep_view() == dir_step(path@),
{
    let mut dirs = no_texts();
    push_text(&mut dirs, path);
    assert(dirs.deep_view() =~= seq![path@]);
    required(Effect::CreateDirs(dirs), ErrorKind::Io, "Failed to create directory")
}

fn bind(source: &str, target: &str) -> (step: Step)
    ensures
        step.deep_view() == bind_step(source@, target@),
{
    let mut what = String::from_str("Failed to bind-mount ");
    what.append(source);
    required(bind_mount(source, target), ErrorKind::Mount, what.as_str())
}

fn remove_tree(path: String) -> (step: Step)
    ensures
        step.deep_view() == removal_step(path@),
{
    required(Effect::RemoveTree(path), ErrorKind::Io, "Failed to remove directory")
}

fn append_steps(plan: &mut Vec<Step>, more: Vec<Step>)
    ensures
        final(plan).deep_view() == old(plan).deep_view() + more.deep_view(),
{
    let mut more = more;
    let ghost added = more.deep_view();
    let ghost items = more@;
    plan.append(&mut more);
    assert(plan@ == old(plan)@ + items);
    assert(plan.deep_view() =~= old(plan).deep_view() + added);
}

fn select_abi(abis: &Vec<Abi>) -> (r: Option<Abi>)
    ensures
        r == preferred_abi(abis@),
{
    let mut i: usize = 0;
    while i < abis.len()
        invariant
            i <= abis.len(),
            forall|j: int| 0 <= j < i ==> abis@[j] != Abi::X86_64,
        decreases abis.len() - i,
    {
        match abis[i] {
            Abi::X86_64 => {
                return Some(Abi::X86_64);
            },
            _ => {},
        }
        i += 1;
    }
    if abis.len() > 0 {
        Some(abis[0])
    } else {
        None
    }
}

impl Prefix {
    /// The prefix at `root`.
    pub fn new(root: &str) -> (prefix: Prefix)
        ensures
            prefix.root@ == root@,
    {
        Prefix { root: String::from_str(root) }
    }

    /// The look at the directories of a layout that
    /// [`Prefix::initialize_with_layout`] judges.
    pub fn layout_probe(&self, dirs: &Vec<String>) -> (effect: Effect)
        ensures
            effect.deep_view() == EffectModel::Stat(
                Seq::new(dirs.len() as nat, |i: int| joined_path(self.root@, dirs[i]@)),
            ),
    {
        let mut paths: Vec<String> = Vec::new();
        let mut i: usize = 0;
        while i < dirs.len()
            invariant
                i <= dirs.len(),
                paths.len() == i,
                forall|j: int| 0 <= j < i ==> paths[j]@ == joined_path(self.root@, dirs[j]@),
            decreases dirs.len() - i,
        {
            paths.push(join(self.root.as_str(), dirs[i].as_str()));
            i += 1;
        }
        assert(paths.deep_view() =~= Seq::new(
            dirs.len() as nat,
            |i: int| joined_path(self.root@, dirs[i]@),
        ));
        Effect::Stat(paths)
    }

    /// Plans what gives the directory at `path` the right permission bits,
    /// from what was found there.
    pub fn ensure_permissions_0755(&self, path: &str, stat: &PathStat) -> (r: Option<Step>)
        ensures
            r is Some <==> !stat.exists || stat.mode & 0o777 != DIRECTORY_MODE,
            r matches Some(step) ==> step.deep_view() == mode_step(path@),
    {
        if !stat.exists || stat.mode & 0o777 != DIRECTORY_MODE {
            Some(
                required(
                    Effect::SetMode { path: String::from_str(path), mode: DIRECTORY_MODE },
                    ErrorKind::Io,
                    "Failed to set permissions",
                ),
            )
        } else {
            None
        }
    }

    fn ensure_directory(&self, relative_path: &str, stat: &PathStat, plan: &mut Vec<Step>) -> (r:
        Result<(), SandboxError>)
        ensures
            r is Err <==> in_the_way(*stat),
            r is Ok ==> final(plan).deep_view() == old(plan).deep_view() + directory_steps(
                joined_path(self.root@, relative_path@),
                *stat,
            ),
            r matches Err(e) ==> e.deep_view() == not_a_directory(
                joined_path(self.root@, relative_path@),
            ) && final(plan).deep_view() == old(plan).deep_view(),
    {
        let path = join(self.root.as_str(), relative_path);
        if stat.exists {
            if !stat.is_dir {
                let mut message = String::from_str("prefix path is not a directory: ");
                message.append(path.as_str());
                return Err(SandboxError::new(ErrorKind::Prefix, message));
            }
        } else {
            plan.push(one_dir(path.as_str()));
        }
        match self.ensure_permissions_0755(path.as_str(), stat) {
            Some(step) => {
                plan.push(step);
            },
            None => {},
        }
        assert(plan.deep_view() =~= old(plan).deep_view() + directory_steps(path@, *stat));
        Ok(())
    }

    /// Plans the directories `dirs` below the root, from what was found at
    /// the paths of [`Prefix::layout_probe`]. Where something that is no
    /// directory is in the way of one, nothing is planned.
    pub fn initialize_with_layout(&self, dirs: &Vec<String>, found: &Outcome) -> (r: Result<
        Vec<Step>,
        SandboxError,
    >)
        ensures
            r is Err <==> exists|i: int|
                0 <= i < dirs.len() && in_the_way(#[trigger] stat_at(found.deep_view(), i)),
            r matches Ok(plan) ==> plan.deep_view() == layout_steps(
                self.root@,
                dirs.deep_view(),
                found.deep_view(),
                dirs.len() as int,
            ),
            r matches Err(e) ==> exists|i: int|
                0 <= i < dirs.len() && in_the_way(#[trigger] stat_at(found.deep_view(), i))
                    && e.deep_view() == not_a_directory(joined_path(self.root@, dirs[i]@)) && forall|
                    k: int,
                |
                    0 <= k < i ==> !in_the_way(#[trigger] stat_at(found.deep_view(), k)),
    {
        let mut plan: Vec<Step> = Vec::new();
        let mut i: usize = 0;
        assert(plan.deep_view() =~= layout_steps(
            self.root@,
            dirs.deep_view(),
            found.deep_view(),
            0,
        ));
        while i < dirs.len()
            invariant
                i <= dirs.len(),
                plan.deep_view() == layout_steps(
                    self.root@,
                    dirs.deep_view(),
                    found.deep_view(),
                    i as int,
                ),
                forall|k: int| 0 <= k < i ==> !in_the_way(#[trigger] stat_at(found.deep_view(), k)),
            decreases dirs.len() - i,
        {
            let stat = match found {
                Outcome::Stats(stats) => {
                    if i < stats.len() {
                        stats[i]
                    } else {
                        PathStat { exists: false, is_dir: false, size: 0, mode: 0 }
                    }
                },
                _ => PathStat { exists: false, is_dir: false, size: 0, mode: 0 },
            };
            assert(stat == stat_at(found.deep_view(), i as int));
            assert(dirs[i as int]@ == dirs.deep_view()[i as int]);
            match self.ensure_directory(dirs[i].as_str(), &stat, &mut plan) {
                Ok(()) => {},
                Err(error) => {
                    return Err(error);
                },
            }
            i += 1;
        }
        Ok(plan)
    }

    /// Plans the directories of a prefix, from what was found at them.
    pub fn initialize(&self, found: &Outcome) -> (r: Result<Vec<Step>, SandboxError>)
        ensures
            r is Err <==> exists|i: int|
                0 <= i < default_dirs().len() && in_the_way(
                    #[trigger] stat_at(found.deep_view(), i),
                ),
            r matches Ok(plan) ==> plan.deep_view() == layout_steps(
                self.root@,
                default_dirs(),
                found.deep_view(),
                default_dirs().len() as int,
            ),
    {
        let dirs = default_prefix_dirs();
        self.initialize_with_layout(&dirs, found)
    }

    /// Plans the removal of the data and the logs of a prefix, from what was
    /// found at the two directories, in this order. The prefix is
    /// initialized anew afterwards.
    pub fn reset(&self, found: &Outcome) -> (plan: Vec<Step>)
        ensures
            plan.deep_view() == reset_steps(self.root@, found.deep_view()),
    {
        let mut plan: Vec<Step> = Vec::new();
        if found.found(0) {
            plan.push(remove_tree(join(self.root.as_str(), "data")));
        }
        if found.found(1) {
            plan.push(remove_tree(join(self.root.as_str(), "logs")));
        }
        assert(plan.deep_view() =~= reset_steps(self.root@, found.deep_view()));
        plan
    }

    /// Plans the installation of the archive at `apk_path` into the prefix.
    pub fn install_apk(&self, apk_path: &str, info: &ApkInfo) -> (plan: Vec<Step>)
        ensures
            plan.deep_view() == install_steps(
                self.root@,
                apk_path@,
                info.package_name@,
                info.supported_abis@,
            ),
    {
        let apps = join(self.root.as_str(), "data/app");
        let app_dir = join(apps.as_str(), info.package_name.as_str());
        let target_apk = join(app_dir.as_str(), "base.apk");
        let mut plan: Vec<Step> = Vec::new();
        plan.push(one_dir(app_dir.as_str()));
        plan.push(
            required(
                Effect::CopyFile { from: String::from_str(apk_path), to: target_apk },
                ErrorKind::Io,
                "Failed to copy the archive",
            ),
        );
        match select_abi(&info.supported_abis) {
            Some(abi) => {
                let libs = join(app_dir.as_str(), "lib");
                let lib_dir = join(libs.as_str(), abi.as_str());
                plan.push(one_dir(lib_dir.as_str()));
                plan.push(
                    required(
                        Effect::ExtractLibraries {
                            archive: String::from_str(apk_path),
                            abi,
                            target: lib_dir,
                        },
                        ErrorKind::Io,
                        "Failed to extract libraries",
                    ),
                );
            },
            None => {},
        }
        let data = join(self.root.as_str(), "data/data");
        let data_dir = join(data.as_str(), info.package_name.as_str());
        plan.push(one_dir(data_dir.as_str()));
        assert(plan.deep_view() =~= install_steps(
            self.root@,
            apk_path@,
            info.package_name@,
            info.supported_abis@,
        ));
        plan
    }

    /// Picks the shell to run in the prefix.
    pub fn resolve_shell_command(&self, facts: &ShellFacts) -> (r: Result<
        (String, Vec<String>),
        SandboxError,
    >)
        ensures
            r is Ok <==> shell_choice(*facts) is Some,
            r matches Ok(choice) ==> Some((choice.0@, choice.1.deep_view())) == shell_choice(
                *facts,
            ),
            r matches Err(e) ==> e.deep_view() == (ErrorModel {
                kind: ErrorKind::Prefix,
                message: "no shell executable found in payload runtime or host"@,
            }),
    {
        if facts.runtime_sh {
            return Ok((String::from_str("/system/bin/sh"), no_texts()));
        }
        if facts.busybox {
            let mut args = no_texts();
            push_text(&mut args, "sh");
            assert(args.deep_view() =~= seq!["sh"@]);
            return Ok((String::from_str("/system/bin/busybox"), args));
        }
        if facts.host_sh {
            return Ok((String::from_str("/bin/sh"), no_texts()));
        }
        match &facts.user_shell {
            Some(shell) => Ok((shell.clone(), no_texts())),
            None => Err(
                SandboxError::new(
                    ErrorKind::Prefix,
                    String::from_str("no shell executable found in payload runtime or host"),
                ),
            ),
        }
    }

    fn setup_sandbox_mounts(&self, payload_path: &str, facts: &SandboxFacts) -> (plan: Vec<Step>)
        ensures
            plan.deep_view() == sandbox_mounts(self.root@, payload_path@, *facts),
    {
        let mut plan: Vec<Step> = Vec::new();
        if facts.payload_system {
            let source = join(payload_path, "system");
            let target = join(self.root.as_str(), "system");
            plan.push(bind(source.as_str(), target.as_str()));
        }
        if facts.host_bin {
            let root_bin = join(self.root.as_str(), "bin");
            plan.push(one_dir(root_bin.as_str()));
            plan.push(bind("/bin", root_bin.as_str()));
        }
        let ghost before = plan.deep_view();
        append_steps(&mut plan, setup_mounts(self.root.as_str()));
        assert(plan.deep_view() =~= sandbox_mounts(self.root@, payload_path@, *facts));
        plan
    }

    /// Plans what a process does once it was forked for the sandbox: the
    /// whole way from namespace entry to becoming `command`.
    pub fn run_in_sandbox_child(
        &self,
        payload_path: &str,
        command: &str,
        args: &Vec<String>,
        redirect: bool,
        facts: &SandboxFacts,
    ) -> (plan: Vec<Step>)
        ensures
            plan.deep_view() == child_plan(
                self.root@,
                payload_path@,
                command@,
                args.deep_view(),
                redirect,
                *facts,
            ),
    {
        let mut plan = enter_namespaces(facts.uid, facts.gid);
        append_steps(&mut plan, self.setup_sandbox_mounts(payload_path, facts));
        let ghost entered = namespace_entry(facts.uid, facts.gid) + sandbox_mounts(
            self.root@,
            payload_path@,
            *facts,
        );
        assert(plan.deep_view() == entered);
        if redirect {
            let log = join(self.root.as_str(), "logs/app.log");
            plan.push(
                required(Effect::RedirectOutput(log), ErrorKind::Io, "Failed to redirect output"),
            );
        }
        let ghost logged = entered + (if redirect {
            seq![log_step(self.root@)]
        } else {
            Seq::<StepModel>::empty()
        });
        assert(plan.deep_view() =~= logged);
        append_steps(&mut plan, chroot(self.root.as_str()));
        let ghost rooted = logged + root_change(self.root@);
        assert(plan.deep_view() == rooted);
        let mut argv = no_texts();
        push_text(&mut argv, command);
        extend_texts(&mut argv, args);
        assert(argv.deep_view() =~= seq![command@] + args.deep_view());
        let env: Vec<(String, String)> = Vec::new();
        assert(env.deep_view() =~= Seq::<(Seq<char>, Seq<char>)>::empty());
        let mut what = String::from_str("Failed to execute ");
        what.append(command);
        let last = required(
            Effect::Execute {
                command: Command { program: String::from_str(command), args: argv, env },
                replace_env: false,
            },
            ErrorKind::Exec,
            what.as_str(),
        );
        assert(last.deep_view() == exec_step(command@, args.deep_view()));
        plan.push(last);
        assert(plan.deep_view() =~= rooted + seq![exec_step(command@, args.deep_view())]);
        plan
    }

    /// Judges how the child ended that was sent into the sandbox: only an
    /// exit with another code than zero, and a death by signal, are
    /// failures.
    pub fn run_in_sandbox(&self, status: &ChildStatus) -> (r: Result<(), SandboxError>)
        ensures
            r is Err <==> (*status matches ChildStatus::Exited(code) && code != 0) || *status
                is Signaled,
            r matches Err(e) ==> e.kind == ErrorKind::Exec && e.message@ == (match *status {
                ChildStatus::Exited(code) => "Child process exited with code "@ + signed_decimal(
                    code as int,
                ),
                ChildStatus::Signaled(signal) => "Child process killed by signal "@ + signal@,
                ChildStatus::Other => Seq::empty(),
            }),
    {
        match status {
            ChildStatus::Exited(code) => {
                if *code != 0 {
                    let mut message = String::from_str("Child process exited with code ");
                    push_signed_decimal(&mut message, *code);
                    Err(SandboxError::new(ErrorKind::Exec, message))
                } else {
                    Ok(())
                }
            },
            ChildStatus::Signaled(signal) => {
                let mut message = String::from_str("Child process killed by signal ");
                message.append(signal.as_str());
                Err(SandboxError::new(ErrorKind::Exec, message))
            },
            ChildStatus::Other => Ok(()),
        }
    }

    /// Plans an interactive shell in the sandbox: the shell is picked, and
    /// the child's way into the sandbox planned for it, with its output
    /// left where it is.
    pub fn enter_shell(&self, payload_path: &str, shells: &ShellFacts, facts: &SandboxFacts) -> (r:
        Result<Vec<Step>, SandboxError>)
        ensures
            r is Ok <==> shell_choice(*shells) is Some,
            r matches Ok(plan) ==> plan.deep_view() == child_plan(
                self.root@,
                payload_path@,
                shell_choice(*shells)->Some_0.0,
                shell_choice(*shells)->Some_0.1,
                false,
                *facts,
            ),
            r matches Err(e) ==> e.deep_view() == (ErrorModel {
                kind: ErrorKind::Prefix,
                message: "no shell executable found in payload runtime or host"@,
            }),
    {
        match self.resolve_shell_command(shells) {
            Ok(choice) => Ok(
                self.run_in_sandbox_child(payload_path, choice.0.as_str(), &choice.1, false, facts),
            ),
            Err(error) => Err(error),
        }
    }
}

} // verus!
