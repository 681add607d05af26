//! The four outside tools, at the level of their argument vectors: the
//! userspace image mounter, the unmounter, the tool that makes namespaces and
//! the tool that joins them.

use vstd::prelude::*;
use vstd::string::StringExecFns;

use crate::error::ErrorKind;
use crate::error::ErrorModel;
use crate::error::SandboxError;
use crate::host::Command;
use crate::host::CommandModel;
use crate::host::Outcome;
use crate::host::OutcomeModel;
use crate::text::decimal;
use crate::text::decimal_string;
use crate::text::trim;
use crate::text::trimmed;

verus! {

/// An empty list of texts.
pub fn no_texts() -> (v: Vec<String>)
    ensures
        v.deep_view() == Seq::<Seq<char>>::empty(),
{
    let v: Vec<String> = Vec::new();
    assert(v.deep_view() =~= Seq::<Seq<char>>::empty());
    v
}

/// Adds a copy of `s` at the end of `v`.
pub fn push_text(v: &mut Vec<String>, s: &str)
    ensures
        final(v).deep_view() == old(v).deep_view().push(s@),
{
    v.push(String::from_str(s));
    assert(v.deep_view() =~= old(v).deep_view().push(s@));
}

/// Adds copies of the items of `more` at the end of `v`.
pub fn extend_texts(v: &mut Vec<String>, more: &Vec<String>)
    ensures
        final(v).deep_view() == old(v).deep_view() + more.deep_view(),
{
    let mut i: usize = 0;
    assert(v.deep_view() =~= old(v).deep_view() + more.deep_view().take(0));
    while i < more.len()
        invariant
            i <= more.len(),
            v.deep_view() == old(v).deep_view() + more.deep_view().take(i as int),
        decreases more.len() - i,
    {
        push_text(v, more[i].as_str());
        assert(more.deep_view().take(i + 1) =~= more.deep_view().take(i as int).push(
            more[i as int]@,
        ));
        assert(v.deep_view() =~= old(v).deep_view() + more.deep_view().take(i + 1));
        i += 1;
    }
    assert(more.deep_view().take(more.len() as int) =~= more.deep_view());
}

/// A command with the inherited environment and nothing added to it.
pub open spec fn plain(program: Seq<char>, args: Seq<Seq<char>>) -> CommandModel {
    CommandModel { program, args, env: Seq::empty() }
}

/// Makes a command with the inherited environment.
pub fn plain_command(program: &str, args: Vec<String>) -> (c: Command)
    ensures
        c.deep_view() == plain(program@, args.deep_view()),
{
    let env: Vec<(String, String)> = Vec::new();
    assert(env.deep_view() =~= Seq::<(Seq<char>, Seq<char>)>::empty());
    Command { program: String::from_str(program), args, env }
}

/// The command that mounts `image` at `mount_point` in userspace. Both option
/// sets present the files of the image as owned by the invoking user; the
/// read-only one also forbids writes.
pub open spec fn fuse2fs(image: Seq<char>, mount_point: Seq<char>, read_only: bool) -> CommandModel {
    plain(
        "fuse2fs"@,
        seq![image, mount_point, "-o"@, if read_only { "ro,fakeroot"@ } else { "fakeroot"@ }],
    )
}

/// Builds the command that mounts `image` at `mount_point`.
pub fn fuse2fs_command(image: &str, mount_point: &str, read_only: bool) -> (c: Command)
    ensures
        c.deep_view() == fuse2fs(image@, mount_point@, read_only),
{
    let mut args = no_texts();
    push_text(&mut args, image);
    push_text(&mut args, mount_point);
    push_text(&mut args, "-o");
    if read_only {
        push_text(&mut args, "ro,fakeroot");
    } else {
        push_text(&mut args, "fakeroot");
    }
    assert(args.deep_view() =~= fuse2fs(image@, mount_point@, read_only).args);
    plain_command("fuse2fs", args)
}

/// The failure that a mount attempt amounts to when it did not run well: the
/// mounter's own words where it ran, a hint where it could not be started.
pub open spec fn mount_failure(image: Seq<char>, outcome: OutcomeModel) -> ErrorModel {
    ErrorModel {
        kind: ErrorKind::Mount,
        message: match outcome {
            OutcomeModel::Exited(output) => "fuse2fs failed for "@ + image + ": "@ + trimmed(
                output.stderr,
            ),
            _ => "Failed to execute fuse2fs. Is it installed? (pacman -S fuse2fs)"@,
        },
    }
}

/// Reads the outcome of a mount attempt: success is an exit with status zero,
/// and anything else a failure that carries the mounter's standard error.
pub fn fuse2fs_mount(image: &str, outcome: &Outcome) -> (r: Result<(), SandboxError>)
    ensures
        r is Ok <==> outcome.deep_view().ran_well(),
        r matches Err(e) ==> e.deep_view() == mount_failure(image@, outcome.deep_view()),
{
    match outcome {
        Outcome::Exited(output) => {
            if output.success() {
                Ok(())
            } else {
                let mut message = String::from_str("fuse2fs failed for ");
                message.append(image);
                message.append(": ");
                let detail = trim(output.stderr.as_str());
                message.append(detail.as_str());
                Err(SandboxError::new(ErrorKind::Mount, message))
            }
        },
        _ => Err(
            SandboxError::new(
                ErrorKind::Mount,
                String::from_str("Failed to execute fuse2fs. Is it installed? (pacman -S fuse2fs)"),
            ),
        ),
    }
}

/// The command that asks the mounter for its usage text.
pub open spec fn fuse2fs_help() -> CommandModel {
    plain("fuse2fs"@, seq!["--help"@])
}

/// Builds the command whose outcome [`check_fuse2fs`] judges.
pub fn fuse2fs_help_command() -> (c: Command)
    ensures
        c.deep_view() == fuse2fs_help(),
{
    let mut args = no_texts();
    push_text(&mut args, "--help");
    assert(args.deep_view() =~= seq!["--help"@]);
    plain_command("fuse2fs", args)
}

/// Whether the mounter is installed, judged by what came of asking it for
/// its usage text: it is if it ran and either exited with status zero or
/// wrote to standard error.
pub fn check_fuse2fs(outcome: &Outcome) -> (r: bool)
    ensures
        r == (outcome.deep_view() matches OutcomeModel::Exited(output) && (output.success()
            || output.stderr.len() > 0)),
{
    match outcome {
        Outcome::Exited(output) => output.success() || !output.stderr.as_str().is_empty(),
        _ => false,
    }
}

/// The three ways to unmount, in the order in which they are tried.
#[derive(Debug, Clone, Copy, PartialEq, Eq, Structural)]
pub enum Attempt {
    /// The newer unmount tool.
    Primary,
    /// The same request to the tool's older name.
    Fallback,
    /// A lazy unmount, which detaches a busy mount.
    Lazy,
}

impl Attempt {
    /// The attempt that follows a failed one; the lazy unmount is the last.
    pub open spec fn following(self) -> Option<Attempt> {
        match self {
            Attempt::Primary => Some(Attempt::Fallback),
            Attempt::Fallback => Some(Attempt::Lazy),
            Attempt::Lazy => None,
        }
    }

    /// The attempt that follows a failed one.
    pub fn next(self) -> (r: Option<Attempt>)
        ensures
            r == self.following(),
    {
        match self {
            Attempt::Primary => Some(Attempt::Fallback),
            Attempt::Fallback => Some(Attempt::Lazy),
            Attempt::Lazy => None,
        }
    }
}

/// The command of an unmount attempt.
pub open spec fn fusermount(attempt: Attempt, mount_point: Seq<char>) -> CommandModel {
    match attempt {
        Attempt::Primary => plain("fusermount3"@, seq!["-u"@, mount_point]),
        Attempt::Fallback => plain("fusermount"@, seq!["-u"@, mount_point]),
        Attempt::Lazy => plain("fusermount"@, seq!["-uz"@, mount_point]),
    }
}

/// Builds the command of an unmount attempt.
pub fn fusermount_command(attempt: Attempt, mount_point: &str) -> (c: Command)
    ensures
        c.deep_view() == fusermount(attempt, mount_point@),
{
    let mut args = no_texts();
    match attempt {
        Attempt::Primary => {
            push_text(&mut args, "-u");
            push_text(&mut args, mount_point);
            assert(args.deep_view() =~= fusermount(attempt, mount_point@).args);
            plain_command("fusermount3", args)
        },
        Attempt::Fallback => {
            push_text(&mut args, "-u");
            push_text(&mut args, mount_point);
            assert(args.deep_view() =~= fusermount(attempt, mount_point@).args);
            plain_command("fusermount", args)
        },
        Attempt::Lazy => {
            push_text(&mut args, "-uz");
            push_text(&mut args, mount_point);
            assert(args.deep_view() =~= fusermount(attempt, mount_point@).args);
            plain_command("fusermount", args)
        },
    }
}

/// What follows an unmount attempt that was not the last to fail.
#[derive(Debug, Clone, PartialEq, Eq)]
pub enum Unmounting {
    /// The mount is gone.
    Released,
    /// The attempt failed and another one is left. The diagnostic is what
    /// the plain `fusermount -u` had to say, once it was tried.
    Retry { attempt: Attempt, diagnostic: String },
}

/// What an [`Unmounting`] is, as plain values.
pub enum UnmountingModel {
    Released,
    Retry { attempt: Attempt, diagnostic: Seq<char> },
}

impl DeepView for Unmounting {
    type V = UnmountingModel;

    open spec fn deep_view(&self) -> UnmountingModel {
        match *self {
            Unmounting::Released => UnmountingModel::Released,
            Unmounting::Retry { attempt, diagnostic } => UnmountingModel::Retry {
                attempt,
                diagnostic: diagnostic@,
            },
        }
    }
}

/// What an unmount attempt had to say: its standard error without the white
/// space around it where the tool ran, and the host's reason where it could
/// not be run.
pub open spec fn unmount_diagnostic(outcome: OutcomeModel) -> Seq<char> {
    match outcome {
        OutcomeModel::Exited(output) => trimmed(output.stderr),
        _ => outcome.reason(),
    }
}

/// The diagnostic that is kept behind a failed attempt: that of the plain
/// `fusermount -u`, the second attempt, from the moment it was made.
pub open spec fn kept_diagnostic(
    attempt: Attempt,
    carried: Seq<char>,
    outcome: OutcomeModel,
) -> Seq<char> {
    if attempt == Attempt::Fallback {
        unmount_diagnostic(outcome)
    } else {
        carried
    }
}

/// The failure of an unmount that all three attempts could not bring about,
/// with the mount point and what the plain `fusermount -u` had to say.
pub open spec fn unmount_failure(mount_point: Seq<char>, diagnostic: Seq<char>) -> ErrorModel {
    ErrorModel {
        kind: ErrorKind::Mount,
        message: "fusermount -u failed for "@ + mount_point + ": "@ + diagnostic,
    }
}

/// What follows an unmount attempt with the given outcome. An attempt that
/// ran well ends the unmount; a failed one is followed by the next. Only the
/// failure of the lazy unmount, the third attempt, is final, and it is the
/// failure of the whole unmount.
pub open spec fn after_unmount(
    attempt: Attempt,
    mount_point: Seq<char>,
    carried: Seq<char>,
    outcome: OutcomeModel,
) -> Result<UnmountingModel, ErrorModel> {
    if outcome.ran_well() {
        Ok(UnmountingModel::Released)
    } else {
        match attempt.following() {
            Some(next) => Ok(
                UnmountingModel::Retry {
                    attempt: next,
                    diagnostic: kept_diagnostic(attempt, carried, outcome),
                },
            ),
            None => Err(unmount_failure(mount_point, carried)),
        }
    }
}

fn diagnostic_of(outcome: &Outcome) -> (r: String)
    ensures
        r@ == unmount_diagnostic(outcome.deep_view()),
{
    match outcome {
        Outcome::Exited(output) => trim(output.stderr.as_str()),
        _ => outcome.reason(),
    }
}

/// Decides what follows the unmount attempt `attempt` on `mount_point`, of
/// which the host reports `outcome`; `carried` is the diagnostic that the
/// attempts before it left. The unmount fails if and only if this was the
/// third attempt and it failed too, and the failure then names the mount
/// point and carries what the plain `fusermount -u` had to say.
pub fn fusermount_unmount(attempt: Attempt, mount_point: &str, carried: &str, outcome: &Outcome) -> (r:
    Result<Unmounting, SandboxError>)
    ensures
        r is Err <==> attempt == Attempt::Lazy && !outcome.deep_view().ran_well(),
        r == Ok::<Unmounting, SandboxError>(Unmounting::Released)
            <==> outcome.deep_view().ran_well(),
        match r {
            Ok(step) => Ok(step.deep_view()),
            Err(error) => Err(error.deep_view()),
        } == after_unmount(attempt, mount_point@, carried@, outcome.deep_view()),
{
    if outcome.ran_well() {
        Ok(Unmounting::Released)
    } else {
        match attempt.next() {
            Some(next) => {
                let diagnostic = match attempt {
                    Attempt::Fallback => diagnostic_of(outcome),
                    _ => String::from_str(carried),
                };
                Ok(Unmounting::Retry { attempt: next, diagnostic })
            },
            None => {
                let mut message = String::from_str("fusermount -u failed for ");
                message.append(mount_point);
                message.append(": ");
                message.append(carried);
                Err(SandboxError::new(ErrorKind::Mount, message))
            },
        }
    }
}

/// The command that runs `command` inside the namespaces of the process
/// `pid`: its user, mount, uts, ipc and pid namespace.
pub open spec fn nsenter(pid: u32, command: Seq<char>, args: Seq<Seq<char>>) -> CommandModel {
    plain(
        "nsenter"@,
        seq![
            "-t"@,
            decimal(pid as nat),
            "--user"@,
            "--mount"@,
            "--uts"@,
            "--ipc"@,
            "--pid"@,
            "--"@,
            command,
        ] + args,
    )
}

/// Builds the command that joins the namespaces of `pid` and runs `command`.
pub fn nsenter_command(pid: u32, command: &str, args: &Vec<String>) -> (c: Command)
    ensures
        c.deep_view() == nsenter(pid, command@, args.deep_view()),
{
    let mut list = no_texts();
    push_text(&mut list, "-t");
    let target = decimal_string(pid as u64);
    push_text(&mut list, target.as_str());
    push_text(&mut list, "--user");
    push_text(&mut list, "--mount");
    push_text(&mut list, "--uts");
    push_text(&mut list, "--ipc");
    push_text(&mut list, "--pid");
    push_text(&mut list, "--");
    push_text(&mut list, command);
    extend_texts(&mut list, args);
    assert(list.deep_view() =~= nsenter(pid, command@, args.deep_view()).args);
    plain_command("nsenter", list)
}

/// The environment that init starts with.
pub open spec fn init_env() -> Seq<(Seq<char>, Seq<char>)> {
    seq![
        ("ANDROID_ROOT"@, "/system"@),
        ("ANDROID_DATA"@, "/data"@),
        ("PATH"@, "/system/bin:/system/xbin:/vendor/bin:/bin:/usr/bin"@),
    ]
}

/// The command that makes fresh user, pid, uts, ipc and mount namespaces,
/// maps the invoking user to root in them, and runs `script` with a shell.
pub open spec fn unshare(script: Seq<char>) -> CommandModel {
    CommandModel {
        program: "unshare"@,
        args: seq![
            "--user"@,
            "--map-root-user"@,
            "--pid"@,
            "--fork"@,
            "--mount-proc"@,
            "--uts"@,
            "--ipc"@,
            "--mount"@,
            "--"@,
            "sh"@,
            "-c"@,
            script,
        ],
        env: init_env(),
    }
}

/// Builds the command that makes the namespaces and runs `script` in them.
pub fn unshare_command(script: &str) -> (c: Command)
    ensures
        c.deep_view() == unshare(script@),
{
    let mut args = no_texts();
    push_text(&mut args, "--user");
    push_text(&mut args, "--map-root-user");
    push_text(&mut args, "--pid");
    push_text(&mut args, "--fork");
    push_text(&mut args, "--mount-proc");
    push_text(&mut args, "--uts");
    push_text(&mut args, "--ipc");
    push_text(&mut args, "--mount");
    push_text(&mut args, "--");
    push_text(&mut args, "sh");
    push_text(&mut args, "-c");
    push_text(&mut args, script);
    assert(args.deep_view() =~= unshare(script@).args);
    let mut env: Vec<(String, String)> = Vec::new();
    env.push((String::from_str("ANDROID_ROOT"), String::from_str("/system")));
    env.push((String::from_str("ANDROID_DATA"), String::from_str("/data")));
    env.push(
        (
            String::from_str("PATH"),
            String::from_str("/system/bin:/system/xbin:/vendor/bin:/bin:/usr/bin"),
        ),
    );
    assert(env.deep_view() =~= init_env());
    Command { program: String::from_str("unshare"), args, env }
}

} // verus!
