//! Whether the host lets an ordinary user enter a user namespace.
//!
//! Two things tell: a kernel setting, where the kernel has it, and a trial
//! in a process forked for the purpose. The host reads the one and makes the
//! other; the verdict is formed here.

use vstd::prelude::*;
use vstd::string::StringExecFns;

use crate::text::same_text;
use crate::text::trim;
use crate::text::trimmed;
use crate::text::text_of;

verus! {

/// The verdict on a capability of the host.
#[derive(Debug, Clone, PartialEq, Eq)]
pub enum CheckResult {
    /// The capability is there and works.
    Available,
    /// The capability is switched off in the kernel.
    Disabled,
    /// The check itself failed.
    Error(String),
}

impl CheckResult {
    /// Tells whether the capability is there.
    pub fn is_available(&self) -> (r: bool)
        ensures
            r == (*self is Available),
    {
        match self {
            CheckResult::Available => true,
            _ => false,
        }
    }
}

/// Why user namespaces cannot be used.
#[derive(Debug, Clone, PartialEq, Eq)]
pub enum UserNamespaceError {
    /// The kernel setting could not be read.
    ProcReadError(String),
    /// The kernel setting forbids them.
    Disabled,
    /// The kernel refused the namespace.
    UnshareError(String),
    /// The trial could not be made or did not end properly.
    ForkError(String),
    /// The trial was made, and the kernel refused the namespace.
    ChildUnshareFailure,
}

/// The text of a failure.
pub open spec fn error_text(error: UserNamespaceError) -> Seq<char> {
    match error {
        UserNamespaceError::ProcReadError(reason) =>
            "Failed to read /proc/sys/kernel/unprivileged_userns_clone: "@ + reason@,
        UserNamespaceError::Disabled =>
            "User namespaces are disabled (unprivileged_userns_clone = 0)"@,
        UserNamespaceError::UnshareError(reason) => "Failed to unshare user namespace: "@
            + reason@,
        UserNamespaceError::ForkError(reason) => "Fork failed during user namespace test: "@
            + reason@,
        UserNamespaceError::ChildUnshareFailure =>
            "Child process failed to unshare user namespace"@,
    }
}

impl UserNamespaceError {
    /// The text to show for the failure.
    pub fn to_string(&self) -> (r: String)
        ensures
            r@ == error_text(*self),
    {
        let mut out;
        match self {
            UserNamespaceError::ProcReadError(reason) => {
                out = String::from_str(
                    "Failed to read /proc/sys/kernel/unprivileged_userns_clone: ",
                );
                out.append(reason.as_str());
            },
            UserNamespaceError::Disabled => {
                out = String::from_str(
                    "User namespaces are disabled (unprivileged_userns_clone = 0)",
                );
            },
            UserNamespaceError::UnshareError(reason) => {
                out = String::from_str("Failed to unshare user namespace: ");
                out.append(reason.as_str());
            },
            UserNamespaceError::ForkError(reason) => {
                out = String::from_str("Fork failed during user namespace test: ");
                out.append(reason.as_str());
            },
            UserNamespaceError::ChildUnshareFailure => {
                out = String::from_str("Child process failed to unshare user namespace");
            },
        }
        out
    }
}

/// How the trial in a forked process went.
#[derive(Debug, Clone, PartialEq, Eq)]
pub enum Trial {
    /// The child exited with this code; zero says that it entered a user
    /// namespace.
    Exited(i32),
    /// The child ended in another way.
    Abnormal,
    /// The child could not be waited for.
    WaitFailed(String),
    /// No child could be forked.
    ForkFailed(String),
}

/// Whether the kernel setting forbids user namespaces to ordinary users. A
/// kernel without the setting forbids nothing.
pub open spec fn forbidden_by(setting: Option<Seq<char>>) -> bool {
    setting matches Some(value) && trimmed(value) == "0"@
}

/// Tells whether the kernel setting forbids user namespaces, in which case
/// no trial is needed.
pub fn disabled_by_setting(setting: Option<&str>) -> (r: bool)
    ensures
        r == forbidden_by(text_of(setting)),
{
    match setting {
        Some(value) => {
            let value = trim(value);
            same_text(value.as_str(), "0")
        },
        None => false,
    }
}

/// The reason that goes with a trial that could not be made.
pub open spec fn trial_reason(trial: Trial) -> Seq<char> {
    match trial {
        Trial::Abnormal => "Child terminated abnormally"@,
        Trial::WaitFailed(reason) => "waitpid failed: "@ + reason@,
        Trial::ForkFailed(reason) => "fork() failed: "@ + reason@,
        Trial::Exited(_) => Seq::empty(),
    }
}

/// Forms the verdict on user namespaces from the kernel setting, where the
/// kernel has one, and the trial. A setting that forbids them decides alone;
/// otherwise the trial does, and only a child that exited with code zero
/// shows that they work.
pub fn check_user_namespaces_support(setting: Option<&str>, trial: &Trial) -> (r: Result<
    (),
    UserNamespaceError,
>)
    ensures
        r is Ok <==> !forbidden_by(text_of(setting)) && *trial == Trial::Exited(0),
        forbidden_by(text_of(setting)) ==> r == Err::<(), UserNamespaceError>(UserNamespaceError::Disabled),
        !forbidden_by(text_of(setting)) ==> match *trial {
            Trial::Exited(code) => code != 0 ==> r == Err::<(), UserNamespaceError>(
                UserNamespaceError::ChildUnshareFailure,
            ),
            _ => r matches Err(UserNamespaceError::ForkError(reason)) && reason@ == trial_reason(
                *trial,
            ),
        },
{
    if disabled_by_setting(setting) {
        return Err(UserNamespaceError::Disabled);
    }
    match trial {
        Trial::Exited(code) => {
            if *code == 0 {
                Ok(())
            } else {
                Err(UserNamespaceError::ChildUnshareFailure)
            }
        },
        Trial::Abnormal => Err(
            UserNamespaceError::ForkError(String::from_str("Child terminated abnormally")),
        ),
        Trial::WaitFailed(reason) => {
            let mut text = String::from_str("waitpid failed: ");
            text.append(reason.as_str());
            Err(UserNamespaceError::ForkError(text))
        },
        Trial::ForkFailed(reason) => {
            let mut text = String::from_str("fork() failed: ");
            text.append(reason.as_str());
            Err(UserNamespaceError::ForkError(text))
        },
    }
}

/// The verdict on user namespaces in the form that the doctor reports:
/// available, disabled by the kernel setting, or failed with the text of the
/// failure.
pub fn check_user_namespaces(setting: Option<&str>, trial: &Trial) -> (r: CheckResult)
    ensures
        r is Available <==> !forbidden_by(text_of(setting)) && *trial == Trial::Exited(0),
        r is Disabled <==> forbidden_by(text_of(setting)),
        r matches CheckResult::Error(text) ==> text@ == (match *trial {
            Trial::Exited(_) => "Child process failed to unshare user namespace"@,
            _ => "Fork failed during user namespace test: "@ + trial_reason(*trial),
        }),
{
    match check_user_namespaces_support(setting, trial) {
        Ok(()) => CheckResult::Available,
        Err(UserNamespaceError::Disabled) => CheckResult::Disabled,
        Err(error) => CheckResult::Error(error.to_string()),
    }
}

} // verus!
