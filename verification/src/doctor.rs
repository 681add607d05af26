//! What the host must offer for a sandbox to run, judged from what was
//! found on it.

use vstd::prelude::*;
use vstd::string::StringExecFns;

use crate::sandbox::check_binderfs;
use crate::sandbox::lists_binder;
use crate::sandbox::BinderfsStatus;
use crate::text::contains;
use crate::text::join;
use crate::text::joined;
use crate::text::occurs_in;
use crate::text::split_whitespace;
use crate::text::words;
use crate::text::text_of;

verus! {

/// The verdict on one capability of the host.
#[derive(Debug, Clone, PartialEq, Eq)]
pub struct DoctorIssue {
    /// The capability.
    pub name: String,
    /// Whether the host has it.
    pub status: bool,
    /// What was found.
    pub description: String,
    /// What to do about it, where something is to be done.
    pub fix: Option<String>,
}

/// What a [`DoctorIssue`] is, as plain values.
pub struct DoctorIssueModel {
    pub name: Seq<char>,
    pub status: bool,
    pub description: Seq<char>,
    pub fix: Option<Seq<char>>,
}

impl DeepView for DoctorIssue {
    type V = DoctorIssueModel;

    open spec fn deep_view(&self) -> DoctorIssueModel {
        DoctorIssueModel {
            name: self.name@,
            status: self.status,
            description: self.description@,
            fix: self.fix.deep_view(),
        }
    }
}

/// What the host looked up for the doctor.
#[derive(Debug, Clone, PartialEq, Eq)]
pub struct HostFacts {
    /// The kernel's list of filesystems, where it could be read.
    pub filesystems: Option<String>,
    /// Whether the control device of a binder filesystem is at its usual
    /// place.
    pub binder_control_exists: bool,
    /// Whether the binder device of old is there.
    pub binder_device_exists: bool,
    /// Whether the process has a user namespace entry.
    pub user_namespace_exists: bool,
    /// Whether the file that lists the controllers of the unified control
    /// group hierarchy is there.
    pub cgroup_controllers_exists: bool,
    /// What that file holds, where it could be read.
    pub cgroup_controllers: Option<String>,
}

fn issue(name: &str, status: bool, description: String, fix: Option<&str>) -> (r: DoctorIssue)
    ensures
        r.deep_view() == (DoctorIssueModel {
            name: name@,
            status,
            description: description@,
            fix: text_of(fix),
        }),
{
    DoctorIssue {
        name: String::from_str(name),
        status,
        description,
        fix: match fix {
            Some(text) => Some(String::from_str(text)),
            None => None,
        },
    }
}

/// The verdict on the overlay filesystem: the kernel has it when its list of
/// filesystems could be read and names it.
pub open spec fn overlayfs_issue(filesystems: Option<Seq<char>>) -> DoctorIssueModel {
    let status = filesystems matches Some(content) && occurs_in(content, "overlay"@);
    DoctorIssueModel {
        name: "OverlayFS"@,
        status,
        description: if status {
            "OverlayFS is supported by the kernel."@
        } else {
            "OverlayFS is NOT supported. Useful for efficient prefix management."@
        },
        fix: if status {
            None
        } else {
            Some("Ensure overlay module is loaded (`modprobe overlay`)."@)
        },
    }
}

/// Judges the overlay filesystem.
pub fn check_overlayfs(filesystems: Option<&str>) -> (r: DoctorIssue)
    ensures
        r.deep_view() == overlayfs_issue(text_of(filesystems)),
{
    let status = match filesystems {
        Some(content) => contains(content, "overlay"),
        None => false,
    };
    if status {
        issue("OverlayFS", true, String::from_str("OverlayFS is supported by the kernel."), None)
    } else {
        issue(
            "OverlayFS",
            false,
            String::from_str("OverlayFS is NOT supported. Useful for efficient prefix management."),
            Some("Ensure overlay module is loaded (`modprobe overlay`)."),
        )
    }
}

/// The verdict on binder: either the binder filesystem or the device of old
/// will do. A kernel that knows the filesystem but has none mounted is fine,
/// and is told how to mount one.
pub open spec fn binder_issue(status: BinderfsStatus, binder_device: bool) -> DoctorIssueModel {
    let ok = status.kernel_support || binder_device;
    let unmounted = status.kernel_support && !status.control_exists;
    let found = if status.kernel_support {
        "Binderfs is supported by the kernel."@
    } else if binder_device {
        "Legacy /dev/binder found."@
    } else {
        "Binder IPC is NOT supported by the kernel."@
    };
    DoctorIssueModel {
        name: "Binder IPC"@,
        status: ok,
        description: if unmounted {
            found + " However, /dev/binderfs/binder-control is missing."@
        } else {
            found
        },
        fix: if !ok {
            Some(
                "Ensure CONFIG_ANDROID_BINDERFS=y or CONFIG_ANDROID_BINDER_IPC=y in kernel config."@,
            )
        } else if unmounted {
            Some(
                "Mount binderfs: `mkdir /dev/binderfs && mount -t binder binder /dev/binderfs`"@,
            )
        } else {
            None
        },
    }
}

/// Judges binder.
pub fn check_binder(status: BinderfsStatus, binder_device: bool) -> (r: DoctorIssue)
    ensures
        r.deep_view() == binder_issue(status, binder_device),
{
    let ok = status.kernel_support || binder_device;
    let unmounted = status.kernel_support && !status.control_exists;
    let mut description = if status.kernel_support {
        String::from_str("Binderfs is supported by the kernel.")
    } else if binder_device {
        String::from_str("Legacy /dev/binder found.")
    } else {
        String::from_str("Binder IPC is NOT supported by the kernel.")
    };
    if unmounted {
        description.append(" However, /dev/binderfs/binder-control is missing.");
    }
    let fix = if !ok {
        Some("Ensure CONFIG_ANDROID_BINDERFS=y or CONFIG_ANDROID_BINDER_IPC=y in kernel config.")
    } else if unmounted {
        Some("Mount binderfs: `mkdir /dev/binderfs && mount -t binder binder /dev/binderfs`")
    } else {
        None
    };
    issue("Binder IPC", ok, description, fix)
}

/// The verdict on user namespaces.
pub open spec fn namespaces_issue(user_namespace: bool) -> DoctorIssueModel {
    DoctorIssueModel {
        name: "User Namespaces"@,
        status: user_namespace,
        description: if user_namespace {
            "User namespaces are supported by the kernel."@
        } else {
            "User namespaces are NOT supported or disabled. Required for rootless execution."@
        },
        fix: if user_namespace {
            None
        } else {
            Some("Enable user namespaces in your kernel config (CONFIG_USER_NS=y)."@)
        },
    }
}

/// Judges user namespaces.
pub fn check_namespaces(user_namespace: bool) -> (r: DoctorIssue)
    ensures
        r.deep_view() == namespaces_issue(user_namespace),
{
    if user_namespace {
        issue(
            "User Namespaces",
            true,
            String::from_str("User namespaces are supported by the kernel."),
            None,
        )
    } else {
        issue(
            "User Namespaces",
            false,
            String::from_str(
                "User namespaces are NOT supported or disabled. Required for rootless execution.",
            ),
            Some("Enable user namespaces in your kernel config (CONFIG_USER_NS=y)."),
        )
    }
}

/// Splits the list of controllers at white space.
pub fn parse_cgroup_controllers(content: &str) -> (r: Vec<String>)
    ensures
        r.deep_view() == words(content@),
{
    split_whitespace(content)
}

/// The controllers that count: those listed in the file, if the file is
/// there and could be read.
pub open spec fn controllers_of(exists: bool, content: Option<Seq<char>>) -> Seq<Seq<char>> {
    match content {
        Some(text) => if exists {
            words(text)
        } else {
            Seq::empty()
        },
        None => Seq::empty(),
    }
}

/// The verdict on the unified control group hierarchy, which is there when
/// the file that lists its controllers is.
pub open spec fn cgroups_issue(exists: bool, content: Option<Seq<char>>) -> DoctorIssueModel {
    let controllers = controllers_of(exists, content);
    DoctorIssueModel {
        name: "Cgroups v2"@,
        status: exists,
        description: if !exists {
            "Cgroups v2 is NOT detected. Required for modern resource isolation."@
        } else if controllers.len() == 0 {
            "Cgroups v2 is enabled, but no controllers were reported."@
        } else {
            "Cgroups v2 is enabled. Available controllers: "@ + joined(controllers, ", "@) + "."@
        },
        fix: if exists {
            None
        } else {
            Some(
                "Enable Cgroups v2 (unified hierarchy) and ensure /sys/fs/cgroup/cgroup.controllers exists."@,
            )
        },
    }
}

/// Judges the unified control group hierarchy from whether the controllers
/// file is there and, where it could be read, what it holds.
pub fn check_cgroups_v2_with(exists: bool, content: Option<&str>) -> (r: DoctorIssue)
    ensures
        r.deep_view() == cgroups_issue(
            exists,
            text_of(content),
        ),
{
    if !exists {
        return issue(
            "Cgroups v2",
            false,
            String::from_str("Cgroups v2 is NOT detected. Required for modern resource isolation."),
            Some(
                "Enable Cgroups v2 (unified hierarchy) and ensure /sys/fs/cgroup/cgroup.controllers exists.",
            ),
        );
    }
    let controllers = match content {
        Some(text) => parse_cgroup_controllers(text),
        None => crate::tools::no_texts(),
    };
    if controllers.len() == 0 {
        assert(controllers.deep_view().len() == 0);
        issue(
            "Cgroups v2",
            true,
            String::from_str("Cgroups v2 is enabled, but no controllers were reported."),
            None,
        )
    } else {
        assert(controllers.deep_view().len() > 0);
        let mut description = String::from_str("Cgroups v2 is enabled. Available controllers: ");
        let list = join(&controllers, ", ");
        description.append(list.as_str());
        description.append(".");
        issue("Cgroups v2", true, description, None)
    }
}

fn borrowed(text: &Option<String>) -> (r: Option<&str>)
    ensures
        text_of(r) == text.deep_view(),
{
    match text {
        Some(s) => Some(s.as_str()),
        None => None,
    }
}

/// The four verdicts on a host with the given facts.
pub open spec fn diagnosis(
    filesystems: Option<Seq<char>>,
    binder_control: bool,
    binder_device: bool,
    user_namespace: bool,
    cgroups: bool,
    controllers: Option<Seq<char>>,
) -> Seq<DoctorIssueModel> {
    seq![
        binder_issue(
            BinderfsStatus {
                kernel_support: filesystems matches Some(content) && lists_binder(content),
                control_exists: binder_control,
            },
            binder_device,
        ),
        namespaces_issue(user_namespace),
        cgroups_issue(cgroups, controllers),
        overlayfs_issue(filesystems),
    ]
}

/// Judges the host on binder, user namespaces, control groups and the
/// overlay filesystem, in this order.
pub fn run_doctor(facts: &HostFacts) -> (issues: Vec<DoctorIssue>)
    ensures
        issues.deep_view() == diagnosis(
            facts.filesystems.deep_view(),
            facts.binder_control_exists,
            facts.binder_device_exists,
            facts.user_namespace_exists,
            facts.cgroup_controllers_exists,
            facts.cgroup_controllers.deep_view(),
        ),
{
    let filesystems = borrowed(&facts.filesystems);
    let status = check_binderfs(filesystems, facts.binder_control_exists);
    let mut issues: Vec<DoctorIssue> = Vec::new();
    issues.push(check_binder(status, facts.binder_device_exists));
    issues.push(check_namespaces(facts.user_namespace_exists));
    issues.push(
        check_cgroups_v2_with(
            facts.cgroup_controllers_exists,
            borrowed(&facts.cgroup_controllers),
        ),
    );
    issues.push(check_overlayfs(filesystems));
    assert(issues.deep_view() =~= diagnosis(
        facts.filesystems.deep_view(),
        facts.binder_control_exists,
        facts.binder_device_exists,
        facts.user_namespace_exists,
        facts.cgroup_controllers_exists,
        facts.cgroup_controllers.deep_view(),
    ));
    issues
}

} // verus!
