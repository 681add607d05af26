use rootless_android::error::ErrorKind;
use rootless_android::host::{
    Command, Effect, MountFlags, MountRequest, Namespace, Outcome, Step,
};
use rootless_android::plan::proceed;
use rootless_android::sandbox::{
    bind_mount, check_binderfs, chroot, enter_namespaces, exec, exec_with_env, id_map,
    mount_tmpfs, parse_proc_filesystems, redirect_stdio, setup_mounts, setup_uid_gid_mapping,
    SandboxConfig,
};
use rootless_android::text::split_whitespace;

fn must(effect: Effect, kind: ErrorKind, what: &str) -> Step {
    Step { effect, required: true, kind, what: what.to_string() }
}

fn may(effect: Effect, kind: ErrorKind, what: &str) -> Step {
    Step { effect, required: false, kind, what: what.to_string() }
}

fn write(path: &str, contents: &str, what: &str) -> Step {
    must(
        Effect::WriteFile { path: path.to_string(), contents: contents.to_string() },
        ErrorKind::Namespace,
        what,
    )
}

fn uid_map(contents: &str) -> Step {
    write("/proc/self/uid_map", contents, "Failed to write uid map")
}

fn setgroups() -> Step {
    write("/proc/self/setgroups", "deny", "Failed to deny setgroups")
}

fn gid_map(contents: &str) -> Step {
    write("/proc/self/gid_map", contents, "Failed to write gid map")
}

fn unshare(namespace: Namespace, what: &str) -> Step {
    must(Effect::Unshare(namespace), ErrorKind::Namespace, what)
}

fn no_flags() -> MountFlags {
    MountFlags { bind: false, recursive: false, no_dev: false, no_exec: false, no_suid: false }
}

fn tmpfs(target: &str) -> Effect {
    Effect::Mount(MountRequest {
        source: None,
        target: target.to_string(),
        fstype: Some("tmpfs".to_string()),
        flags: no_flags(),
    })
}

#[test]
fn test_parse_proc_filesystems() {
    let ok_content = "nodev\tsysfs\nnodev\ttmpfs\nnodev\tbinder\n";
    let fail_content = "nodev\tsysfs\nnodev\ttmpfs\n";

    assert!(parse_proc_filesystems(ok_content));
    assert!(!parse_proc_filesystems(fail_content));
}

#[test]
fn test_check_binderfs_logic() {
    let status = check_binderfs(Some("nodev\tsysfs\nnodev\tbinder\n"), false);
    assert!(status.kernel_support);
    assert!(!status.control_exists);
    let status = check_binderfs(Some("nodev\tsysfs\n"), true);
    assert!(!status.kernel_support);
    assert!(status.control_exists);
    // a list that could not be read shows no support
    let status = check_binderfs(None, true);
    assert!(!status.kernel_support);
}

#[test]
fn test_namespace_in_child_process() {
    let _status = check_binderfs(None, false);
}

#[test]
fn test_sandbox_config_creation() {
    let config = SandboxConfig { rootfs: "/tmp/test".to_string() };

    assert_eq!(config.rootfs, "/tmp/test");
}

#[test]
fn test_sandbox_config() {
    let config = SandboxConfig { rootfs: "/test/path".to_string() };

    assert_eq!(config.rootfs.as_str(), "/test/path");
}

#[test]
fn test_uid_gid_mapping_format() {
    let uid = 1000u32;
    let gid = 1000u32;

    let uid_map = id_map(uid);
    let gid_map = id_map(gid);

    assert_eq!(uid_map, "0 1000 1");
    assert_eq!(gid_map, "0 1000 1");
}

#[test]
fn test_uid_gid_mapping_format_validation() {
    let uid: u32 = 1000;
    let gid: u32 = 1000;

    let uid_map = id_map(uid);
    let gid_map = id_map(gid);

    assert_eq!(uid_map, "0 1000 1", "UID map format should be '0 <uid> 1'");
    assert_eq!(gid_map, "0 1000 1", "GID map format should be '0 <gid> 1'");

    for test_uid in [0u32, 1000, 65534] {
        let map = id_map(test_uid);
        let parts: Vec<&str> = map.split_whitespace().collect();
        assert_eq!(parts.len(), 3, "Map should have 3 parts");
        assert_eq!(parts[0], "0", "First part should be 0 (inner UID)");
        assert_eq!(parts[1], test_uid.to_string(), "Second part should be the outer UID");
        assert_eq!(parts[2], "1", "Third part should be 1 (range length)");
    }

    println!("UID/GID mapping format validation passed");
}

#[test]
fn mapping_line_has_three_fields_for_every_identity() {
    for id in [0u32, 1, 9, 10, 65534, 65535, 1_000_000, u32::MAX] {
        let line = id_map(id);
        assert_eq!(line, format!("0 {} 1", id));
        assert_eq!(
            split_whitespace(&line),
            vec!["0".to_string(), id.to_string(), "1".to_string()]
        );
    }
}

#[test]
fn mapping_denies_setgroups_before_the_group_map() {
    assert_eq!(
        setup_uid_gid_mapping(1000, 100),
        vec![uid_map("0 1000 1"), setgroups(), gid_map("0 100 1")]
    );
}

#[test]
fn namespace_entry_maps_identities_before_the_mount_namespace() {
    assert_eq!(
        enter_namespaces(1000, 1000),
        vec![
            unshare(Namespace::User, "Failed to enter user namespace"),
            uid_map("0 1000 1"),
            setgroups(),
            gid_map("0 1000 1"),
            unshare(Namespace::Mount, "Failed to enter mount namespace"),
        ]
    );
    // every step is required, and its failure is a failure of namespace entry
    assert!(enter_namespaces(0, 65534)
        .iter()
        .all(|step| step.required && step.kind == ErrorKind::Namespace));
}

#[test]
fn a_refused_step_of_namespace_entry_is_final() {
    let plan = enter_namespaces(1000, 1000);
    let error = proceed(&plan[0], &Outcome::Failed("EINVAL".to_string())).unwrap_err();
    assert_eq!(error.kind, ErrorKind::Namespace);
    assert_eq!(error.to_string(), "Failed to enter user namespace: EINVAL");
    assert!(proceed(&plan[0], &Outcome::Done).is_ok());
    // anything but a plain success stops a required step
    let error = proceed(&plan[1], &Outcome::Absent).unwrap_err();
    assert_eq!(error.to_string(), "Failed to write uid map: ");
    let error = proceed(&plan[3], &Outcome::Failed("EPERM".to_string())).unwrap_err();
    assert_eq!(error.to_string(), "Failed to write gid map: EPERM");
}

#[test]
fn mounts_that_may_fail_do_not_stop_the_plan() {
    let plan = setup_mounts("/r");
    assert_eq!(
        plan,
        vec![
            must(
                Effect::CreateDirs(vec![
                    "/r/proc".to_string(),
                    "/r/sys".to_string(),
                    "/r/dev".to_string(),
                    "/r/tmp".to_string(),
                ]),
                ErrorKind::Io,
                "Failed to create mount points",
            ),
            may(tmpfs("/r/dev"), ErrorKind::Mount, "Failed to mount tmpfs on /dev"),
            may(tmpfs("/r/tmp"), ErrorKind::Mount, "Failed to mount tmpfs on /tmp"),
        ]
    );
    let refused = Outcome::Failed("EPERM".to_string());
    let error = proceed(&plan[0], &refused).unwrap_err();
    assert_eq!(error.kind, ErrorKind::Io);
    assert_eq!(error.to_string(), "Failed to create mount points: EPERM");
    assert!(proceed(&plan[1], &refused).is_ok());
    assert!(proceed(&plan[2], &refused).is_ok());
}

#[test]
fn bind_mount_is_recursive() {
    assert_eq!(
        bind_mount("/payload/system", "/r/system"),
        Effect::Mount(MountRequest {
            source: Some("/payload/system".to_string()),
            target: "/r/system".to_string(),
            fstype: None,
            flags: MountFlags { bind: true, recursive: true, ..no_flags() },
        })
    );
    assert_eq!(mount_tmpfs("/r/dev"), tmpfs("/r/dev"));
    assert_eq!(redirect_stdio("/r/logs/app.log"), Effect::RedirectOutput("/r/logs/app.log".to_string()));
}

#[test]
fn chroot_enters_changes_and_returns_to_the_top() {
    assert_eq!(
        chroot("/r"),
        vec![
            must(
                Effect::ChangeDir("/r".to_string()),
                ErrorKind::Namespace,
                "Failed to enter the new root"
            ),
            must(Effect::ChangeRoot("/r".to_string()), ErrorKind::Namespace, "Failed to change root"),
            must(
                Effect::ChangeDir("/".to_string()),
                ErrorKind::Namespace,
                "Failed to enter the top of the new root"
            ),
        ]
    );
}

#[test]
fn exec_hands_on_arguments_and_environment() {
    let args = vec!["/bin/sh".to_string(), "-c".to_string(), "true".to_string()];
    assert_eq!(
        exec("/bin/sh", &args),
        Effect::Execute {
            command: Command { program: "/bin/sh".to_string(), args: args.clone(), env: vec![] },
            replace_env: false,
        }
    );
    let env = vec![("ANDROID_ROOT".to_string(), "/system".to_string())];
    assert_eq!(
        exec_with_env("/bin/sh", &args, &env),
        Effect::Execute {
            command: Command { program: "/bin/sh".to_string(), args, env },
            replace_env: true,
        }
    );
}

#[test]
fn binder_is_recognised_at_the_end_of_a_line() {
    assert!(parse_proc_filesystems("nodev\tbinder"));
    assert!(parse_proc_filesystems("binder\r\nnodev\tsysfs"));
    assert!(parse_proc_filesystems("  binder  \n"));
    assert!(parse_proc_filesystems("nodev\thwbinder\n"));
    assert!(!parse_proc_filesystems("nodev\tbinderfs\n"));
    assert!(!parse_proc_filesystems("nodev\tbin\nder\n"));
    assert!(!parse_proc_filesystems(""));
}

#[test]
fn test_enter_user_namespace() {
    let plan = enter_namespaces(1000, 1000);
    assert_eq!(plan[0], unshare(Namespace::User, "Failed to enter user namespace"));
    // the kernel refuses a process with several threads: the plan stops there
    let refused = Outcome::Failed("EINVAL".to_string());
    assert!(proceed(&plan[0], &refused).is_err());
}

#[test]
fn test_uid_gid_mapping() {
    let plan = enter_namespaces(1000, 1000);
    let written: Vec<&str> = plan
        .iter()
        .filter_map(|step| match &step.effect {
            Effect::WriteFile { path, .. } => Some(path.as_str()),
            _ => None,
        })
        .collect();
    assert!(written.contains(&"/proc/self/uid_map"));
    assert!(written.contains(&"/proc/self/gid_map"));
}

#[test]
fn test_bind_mount_payload() {
    let effect = bind_mount("/tmp/bind-mount-source", "/tmp/bind-mount-target");
    match effect {
        Effect::Mount(request) => {
            assert_eq!(request.source.as_deref(), Some("/tmp/bind-mount-source"));
            assert_eq!(request.target, "/tmp/bind-mount-target");
            assert!(request.flags.bind && request.flags.recursive);
        }
        other => panic!("unexpected {:?}", other),
    }
}

#[test]
fn test_setup_mounts_creates_dirs() {
    let plan = setup_mounts("/tmp/rootfs");
    match &plan[0].effect {
        Effect::CreateDirs(dirs) => {
            assert!(dirs.contains(&"/tmp/rootfs/proc".to_string()));
            assert!(dirs.contains(&"/tmp/rootfs/sys".to_string()));
            assert!(dirs.contains(&"/tmp/rootfs/dev".to_string()));
            assert!(dirs.contains(&"/tmp/rootfs/tmp".to_string()));
        }
        other => panic!("unexpected {:?}", other),
    }
    assert!(plan[0].required);
}

#[test]
fn test_actual_uid_gid_mapping_with_fork() {
    let real_uid = 1000u32;
    let real_gid = 984u32;
    let plan = enter_namespaces(real_uid, real_gid);

    let expected_uid_map = format!("0 {} 1", real_uid);
    let expected_gid_map = format!("0 {} 1", real_gid);
    assert_eq!(plan[1], uid_map(&expected_uid_map));
    assert_eq!(plan[3], gid_map(&expected_gid_map));
}
