use rootless_android::doctor::{
    check_binder, check_cgroups_v2_with, check_namespaces, check_overlayfs,
    parse_cgroup_controllers, run_doctor, HostFacts,
};
use rootless_android::sandbox::BinderfsStatus;
use rootless_android::userns::{
    check_user_namespaces, check_user_namespaces_support, disabled_by_setting, CheckResult, Trial,
    UserNamespaceError,
};

fn facts() -> HostFacts {
    HostFacts {
        filesystems: Some("nodev\tsysfs\nnodev\toverlay\nnodev\tbinder\n".to_string()),
        binder_control_exists: true,
        binder_device_exists: false,
        user_namespace_exists: true,
        cgroup_controllers_exists: true,
        cgroup_controllers: Some("cpu io memory\n".to_string()),
    }
}

#[test]
fn doctor_reports_cgroups_v2_check() {
    let issues = run_doctor(&facts());

    assert!(
        issues.iter().any(|issue| issue.name == "Cgroups v2"),
        "doctor output should include Cgroups v2 status"
    );
}

#[test]
fn cgroups_v2_check_fails_when_controllers_file_is_missing() {
    let issue = check_cgroups_v2_with(false, Some(""));

    assert!(!issue.status);
    assert_eq!(issue.name, "Cgroups v2");
    assert!(issue.fix.is_some());
}

#[test]
fn parse_cgroup_controllers_splits_whitespace() {
    let controllers = parse_cgroup_controllers("cpu memory\nio  pids\n");

    assert_eq!(controllers, vec!["cpu", "memory", "io", "pids"]);
}

#[test]
fn doctor_gives_four_verdicts_in_order() {
    let issues = run_doctor(&facts());
    let names: Vec<&str> = issues.iter().map(|issue| issue.name.as_str()).collect();
    assert_eq!(names, vec!["Binder IPC", "User Namespaces", "Cgroups v2", "OverlayFS"]);
    assert!(issues.iter().all(|issue| issue.status && issue.fix.is_none()));
    assert_eq!(issues[0].description, "Binderfs is supported by the kernel.");
    assert_eq!(issues[1].description, "User namespaces are supported by the kernel.");
    assert_eq!(
        issues[2].description,
        "Cgroups v2 is enabled. Available controllers: cpu, io, memory."
    );
    assert_eq!(issues[3].description, "OverlayFS is supported by the kernel.");
    let bare = HostFacts {
        filesystems: None,
        binder_control_exists: false,
        binder_device_exists: false,
        user_namespace_exists: false,
        cgroup_controllers_exists: false,
        cgroup_controllers: None,
    };
    let issues = run_doctor(&bare);
    assert!(issues.iter().all(|issue| !issue.status && issue.fix.is_some()));
}

#[test]
fn cgroups_with_and_without_controllers() {
    let issue = check_cgroups_v2_with(true, Some("cpu"));
    assert!(issue.status);
    assert_eq!(issue.description, "Cgroups v2 is enabled. Available controllers: cpu.");
    assert_eq!(issue.fix, None);
    for content in [Some(""), Some(" \n"), None] {
        let issue = check_cgroups_v2_with(true, content);
        assert!(issue.status);
        assert_eq!(
            issue.description,
            "Cgroups v2 is enabled, but no controllers were reported."
        );
    }
    let issue = check_cgroups_v2_with(false, Some("cpu io"));
    assert_eq!(
        issue.description,
        "Cgroups v2 is NOT detected. Required for modern resource isolation."
    );
    assert_eq!(
        issue.fix.as_deref(),
        Some("Enable Cgroups v2 (unified hierarchy) and ensure /sys/fs/cgroup/cgroup.controllers exists.")
    );
}

#[test]
fn binder_verdicts() {
    let status = |kernel_support, control_exists| BinderfsStatus { kernel_support, control_exists };
    let issue = check_binder(status(true, true), false);
    assert!(issue.status);
    assert_eq!(issue.description, "Binderfs is supported by the kernel.");
    assert_eq!(issue.fix, None);
    let issue = check_binder(status(true, false), true);
    assert!(issue.status);
    assert_eq!(
        issue.description,
        "Binderfs is supported by the kernel. However, /dev/binderfs/binder-control is missing."
    );
    assert_eq!(
        issue.fix.as_deref(),
        Some("Mount binderfs: `mkdir /dev/binderfs && mount -t binder binder /dev/binderfs`")
    );
    let issue = check_binder(status(false, true), true);
    assert!(issue.status);
    assert_eq!(issue.description, "Legacy /dev/binder found.");
    assert_eq!(issue.fix, None);
    let issue = check_binder(status(false, false), false);
    assert!(!issue.status);
    assert_eq!(issue.name, "Binder IPC");
    assert_eq!(issue.description, "Binder IPC is NOT supported by the kernel.");
    assert_eq!(
        issue.fix.as_deref(),
        Some("Ensure CONFIG_ANDROID_BINDERFS=y or CONFIG_ANDROID_BINDER_IPC=y in kernel config.")
    );
}

#[test]
fn namespace_and_overlay_verdicts() {
    let issue = check_namespaces(false);
    assert!(!issue.status);
    assert_eq!(
        issue.description,
        "User namespaces are NOT supported or disabled. Required for rootless execution."
    );
    assert_eq!(
        issue.fix.as_deref(),
        Some("Enable user namespaces in your kernel config (CONFIG_USER_NS=y).")
    );
    assert!(check_namespaces(true).status);
    let issue = check_overlayfs(Some("nodev\toverlay\n"));
    assert!(issue.status);
    assert_eq!(issue.name, "OverlayFS");
    for content in [Some("nodev\text4\n"), None] {
        let issue = check_overlayfs(content);
        assert!(!issue.status);
        assert_eq!(
            issue.description,
            "OverlayFS is NOT supported. Useful for efficient prefix management."
        );
        assert_eq!(
            issue.fix.as_deref(),
            Some("Ensure overlay module is loaded (`modprobe overlay`).")
        );
    }
}

#[test]
fn test_check_user_namespaces_support() {
    let result = check_user_namespaces_support(Some("1\n"), &Trial::Exited(0));

    match result {
        Ok(_) => {
            println!("User namespaces are supported");
        }
        Err(UserNamespaceError::Disabled) => {
            println!("User namespaces are disabled");
        }
        Err(e) => {
            panic!("Unexpected error checking user namespaces: {}", e.to_string());
        }
    }
}

#[test]
fn test_check_user_namespaces_public_api() {
    for (setting, trial) in [
        (None, Trial::Exited(0)),
        (Some("0\n"), Trial::Exited(0)),
        (Some("1\n"), Trial::Exited(1)),
        (None, Trial::Abnormal),
    ] {
        let result = check_user_namespaces(setting, &trial);

        match &result {
            CheckResult::Available => {
                println!("User namespaces: Available");
                assert!(result.is_available());
            }
            CheckResult::Disabled => {
                println!("User namespaces: Disabled");
                assert!(!result.is_available());
            }
            CheckResult::Error(msg) => {
                println!("User namespaces: Error - {}", msg);
                assert!(!result.is_available());
            }
        }
    }
}

#[test]
fn test_check_result_variants() {
    assert!(CheckResult::Available.is_available());
    assert!(!CheckResult::Disabled.is_available());
    assert!(!CheckResult::Error("test".to_string()).is_available());

    assert_eq!(CheckResult::Available, CheckResult::Available);
    assert_eq!(CheckResult::Disabled, CheckResult::Disabled);
    assert_ne!(CheckResult::Available, CheckResult::Disabled);
}

#[test]
fn the_kernel_setting_decides_alone() {
    assert!(disabled_by_setting(Some("0")));
    assert!(disabled_by_setting(Some(" 0\n")));
    assert!(!disabled_by_setting(Some("1\n")));
    assert!(!disabled_by_setting(Some("00")));
    assert!(!disabled_by_setting(Some("")));
    assert!(!disabled_by_setting(None));
    assert_eq!(
        check_user_namespaces_support(Some("0\n"), &Trial::Exited(0)),
        Err(UserNamespaceError::Disabled)
    );
    assert_eq!(check_user_namespaces(Some("0\n"), &Trial::Exited(0)), CheckResult::Disabled);
}

#[test]
fn the_trial_decides_where_the_setting_allows() {
    assert_eq!(check_user_namespaces_support(None, &Trial::Exited(0)), Ok(()));
    assert_eq!(check_user_namespaces(Some("1"), &Trial::Exited(0)), CheckResult::Available);
    assert_eq!(
        check_user_namespaces_support(None, &Trial::Exited(1)),
        Err(UserNamespaceError::ChildUnshareFailure)
    );
    assert_eq!(
        check_user_namespaces(None, &Trial::Exited(1)),
        CheckResult::Error("Child process failed to unshare user namespace".to_string())
    );
    assert_eq!(
        check_user_namespaces(None, &Trial::Abnormal),
        CheckResult::Error(
            "Fork failed during user namespace test: Child terminated abnormally".to_string()
        )
    );
    assert_eq!(
        check_user_namespaces(None, &Trial::WaitFailed("ECHILD".to_string())),
        CheckResult::Error(
            "Fork failed during user namespace test: waitpid failed: ECHILD".to_string()
        )
    );
    assert_eq!(
        check_user_namespaces_support(None, &Trial::ForkFailed("EAGAIN".to_string())),
        Err(UserNamespaceError::ForkError("fork() failed: EAGAIN".to_string()))
    );
}

#[test]
fn user_namespace_errors_have_their_texts() {
    assert_eq!(
        UserNamespaceError::Disabled.to_string(),
        "User namespaces are disabled (unprivileged_userns_clone = 0)"
    );
    assert_eq!(
        UserNamespaceError::ProcReadError("EACCES".to_string()).to_string(),
        "Failed to read /proc/sys/kernel/unprivileged_userns_clone: EACCES"
    );
    assert_eq!(
        UserNamespaceError::UnshareError("EPERM".to_string()).to_string(),
        "Failed to unshare user namespace: EPERM"
    );
    assert_eq!(
        UserNamespaceError::ChildUnshareFailure.to_string(),
        "Child process failed to unshare user namespace"
    );
}

#[test]
fn test_proc_file_parsing() {
    for content in ["0\n", "1\n"] {
        let value = content.trim();
        assert!(value == "0" || value == "1", "Expected 0 or 1, got: {}", value);
        assert_eq!(disabled_by_setting(Some(content)), value == "0");
    }
}
