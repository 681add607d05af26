use rootless_android::apk::{Abi, ApkInfo};
use rootless_android::error::ErrorKind;
use rootless_android::host::{
    Command, Effect, MountFlags, MountRequest, Namespace, Outcome, PathStat, Step,
};
use rootless_android::prefix::{
    default_prefix_dirs, ChildStatus, Prefix, SandboxFacts, ShellFacts, DIRECTORY_MODE,
};

fn dir(mode: u32) -> PathStat {
    PathStat { exists: true, is_dir: true, size: 4096, mode }
}

fn file() -> PathStat {
    PathStat { exists: true, is_dir: false, size: 1, mode: 0o100644 }
}

fn missing() -> PathStat {
    PathStat { exists: false, is_dir: false, size: 0, mode: 0 }
}

fn must(effect: Effect, kind: ErrorKind, what: &str) -> Step {
    Step { effect, required: true, kind, what: what.to_string() }
}

fn mkdir(path: &str) -> Step {
    must(Effect::CreateDirs(vec![path.to_string()]), ErrorKind::Io, "Failed to create directory")
}

fn chmod(path: &str) -> Step {
    must(
        Effect::SetMode { path: path.to_string(), mode: 0o755 },
        ErrorKind::Io,
        "Failed to set permissions",
    )
}

fn rmtree(path: &str) -> Step {
    must(Effect::RemoveTree(path.to_string()), ErrorKind::Io, "Failed to remove directory")
}

fn texts(items: &[&str]) -> Vec<String> {
    items.iter().map(|s| s.to_string()).collect()
}

fn no_shell() -> ShellFacts {
    ShellFacts { runtime_sh: false, busybox: false, host_sh: false, user_shell: None }
}

#[test]
fn initialize_supports_configurable_layout() {
    let prefix = Prefix::new("/tmp/rad-prefix");
    let dirs = texts(&["root", "data", "cache"]);
    assert_eq!(
        prefix.layout_probe(&dirs),
        Effect::Stat(texts(&[
            "/tmp/rad-prefix/root",
            "/tmp/rad-prefix/data",
            "/tmp/rad-prefix/cache"
        ]))
    );

    let plan = prefix
        .initialize_with_layout(&dirs, &Outcome::Stats(vec![missing(), missing(), missing()]))
        .unwrap();

    assert_eq!(
        plan,
        vec![
            mkdir("/tmp/rad-prefix/root"),
            chmod("/tmp/rad-prefix/root"),
            mkdir("/tmp/rad-prefix/data"),
            chmod("/tmp/rad-prefix/data"),
            mkdir("/tmp/rad-prefix/cache"),
            chmod("/tmp/rad-prefix/cache"),
        ]
    );
}

#[test]
fn initialize_sets_0755_permissions() {
    assert_eq!(DIRECTORY_MODE, 0o755);
    let prefix = Prefix::new("/p");
    let dirs = texts(&["root", "data"]);

    let plan = prefix
        .initialize_with_layout(&dirs, &Outcome::Stats(vec![dir(0o40755), dir(0o40700)]))
        .unwrap();

    // a directory with the right bits is left alone, another is given them
    assert_eq!(plan, vec![chmod("/p/data")]);
    assert!(prefix.ensure_permissions_0755("/p/root", &dir(0o40755)).is_none());
    assert_eq!(prefix.ensure_permissions_0755("/p/data", &dir(0o777)), Some(chmod("/p/data")));
}

#[test]
fn initialize_refuses_what_is_in_the_way() {
    let prefix = Prefix::new("/p");
    let dirs = texts(&["root", "data", "logs"]);
    let error = prefix
        .initialize_with_layout(&dirs, &Outcome::Stats(vec![missing(), file(), file()]))
        .unwrap_err();
    assert_eq!(error.kind, ErrorKind::Prefix);
    assert_eq!(error.to_string(), "prefix path is not a directory: /p/data");
}

#[test]
fn initialize_plans_the_whole_prefix() {
    let prefix = Prefix::new("/p");
    assert_eq!(
        default_prefix_dirs(),
        texts(&[
            "root", "system", "data", "data/app", "data/data", "dev", "proc", "sys", "tmp",
            "apex", "logs"
        ])
    );
    let plan = prefix.initialize(&Outcome::Stats(vec![])).unwrap();
    assert_eq!(plan.len(), 22);
    assert_eq!(plan[0], mkdir("/p/root"));
    assert_eq!(plan[21], chmod("/p/logs"));
    let all_there = Outcome::Stats(vec![dir(0o40755); 11]);
    assert_eq!(prefix.initialize(&all_there).unwrap(), Vec::new());
}

#[test]
fn shell_prefers_runtime_sh_when_available() {
    let prefix = Prefix::new("/tmp/rad-prefix-runtime-sh");
    let facts = ShellFacts { runtime_sh: true, busybox: true, host_sh: true, ..no_shell() };
    let (command, args) = prefix.resolve_shell_command(&facts).unwrap();

    assert_eq!(command, "/system/bin/sh");
    assert!(args.is_empty());
}

#[test]
fn shell_uses_busybox_sh_when_system_shell_is_missing() {
    let prefix = Prefix::new("/tmp/rad-prefix-busybox-shell");
    let facts = ShellFacts { busybox: true, host_sh: true, ..no_shell() };
    let (command, args) = prefix.resolve_shell_command(&facts).unwrap();

    assert_eq!(command, "/system/bin/busybox");
    assert_eq!(args, vec!["sh".to_string()]);
}

#[test]
fn shell_falls_back_to_host_bin_sh() {
    let prefix = Prefix::new("/tmp/rad-prefix-host-shell");
    let facts = ShellFacts { host_sh: true, user_shell: Some("/bin/zsh".to_string()), ..no_shell() };
    let (command, args) = prefix.resolve_shell_command(&facts).unwrap();

    assert_eq!(command, "/bin/sh");
    assert!(args.is_empty());
}

#[test]
fn shell_of_the_user_is_the_last_resort() {
    let prefix = Prefix::new("/p");
    let facts = ShellFacts { user_shell: Some("/usr/bin/fish".to_string()), ..no_shell() };
    assert_eq!(
        prefix.resolve_shell_command(&facts).unwrap(),
        ("/usr/bin/fish".to_string(), Vec::new())
    );
    let error = prefix.resolve_shell_command(&no_shell()).unwrap_err();
    assert_eq!(error.kind, ErrorKind::Prefix);
    assert_eq!(error.to_string(), "no shell executable found in payload runtime or host");
}

#[test]
fn child_enters_namespaces_before_it_mounts() {
    let prefix = Prefix::new("/p");
    let facts = SandboxFacts { uid: 1000, gid: 100, payload_system: true, host_bin: true };
    let plan = prefix.run_in_sandbox_child("/payload", "/system/bin/app", &texts(&["-x"]), true, &facts);
    let namespace = |effect: Effect, what: &str| must(effect, ErrorKind::Namespace, what);
    let write = |path: &str, contents: &str, what: &str| {
        namespace(
            Effect::WriteFile { path: path.to_string(), contents: contents.to_string() },
            what,
        )
    };
    let bind = |source: &str, target: &str| {
        must(
            Effect::Mount(MountRequest {
                source: Some(source.to_string()),
                target: target.to_string(),
                fstype: None,
                flags: MountFlags {
                    bind: true,
                    recursive: true,
                    no_dev: false,
                    no_exec: false,
                    no_suid: false,
                },
            }),
            ErrorKind::Mount,
            &format!("Failed to bind-mount {}", source),
        )
    };
    let tmpfs = |target: &str, what: &str| Step {
        effect: Effect::Mount(MountRequest {
            source: None,
            target: target.to_string(),
            fstype: Some("tmpfs".to_string()),
            flags: MountFlags {
                bind: false,
                recursive: false,
                no_dev: false,
                no_exec: false,
                no_suid: false,
            },
        }),
        required: false,
        kind: ErrorKind::Mount,
        what: what.to_string(),
    };
    assert_eq!(
        plan,
        vec![
            namespace(Effect::Unshare(Namespace::User), "Failed to enter user namespace"),
            write("/proc/self/uid_map", "0 1000 1", "Failed to write uid map"),
            write("/proc/self/setgroups", "deny", "Failed to deny setgroups"),
            write("/proc/self/gid_map", "0 100 1", "Failed to write gid map"),
            namespace(Effect::Unshare(Namespace::Mount), "Failed to enter mount namespace"),
            bind("/payload/system", "/p/system"),
            mkdir("/p/bin"),
            bind("/bin", "/p/bin"),
            must(
                Effect::CreateDirs(texts(&["/p/proc", "/p/sys", "/p/dev", "/p/tmp"])),
                ErrorKind::Io,
                "Failed to create mount points"
            ),
            tmpfs("/p/dev", "Failed to mount tmpfs on /dev"),
            tmpfs("/p/tmp", "Failed to mount tmpfs on /tmp"),
            must(
                Effect::RedirectOutput("/p/logs/app.log".to_string()),
                ErrorKind::Io,
                "Failed to redirect output"
            ),
            namespace(Effect::ChangeDir("/p".to_string()), "Failed to enter the new root"),
            namespace(Effect::ChangeRoot("/p".to_string()), "Failed to change root"),
            namespace(
                Effect::ChangeDir("/".to_string()),
                "Failed to enter the top of the new root"
            ),
            must(
                Effect::Execute {
                    command: Command {
                        program: "/system/bin/app".to_string(),
                        args: texts(&["/system/bin/app", "-x"]),
                        env: vec![],
                    },
                    replace_env: false,
                },
                ErrorKind::Exec,
                "Failed to execute /system/bin/app"
            ),
        ]
    );
    let bare = SandboxFacts { uid: 0, gid: 0, payload_system: false, host_bin: false };
    let plan = prefix.run_in_sandbox_child("/payload", "sh", &Vec::new(), false, &bare);
    assert_eq!(plan.len(), 12);
    assert!(!plan.iter().any(|step| matches!(step.effect, Effect::RedirectOutput(_))));
}

#[test]
fn enter_shell_runs_the_chosen_shell() {
    let prefix = Prefix::new("/p");
    let facts = SandboxFacts { uid: 1000, gid: 1000, payload_system: false, host_bin: true };
    let shells = ShellFacts { busybox: true, ..no_shell() };
    let plan = prefix.enter_shell("/payload", &shells, &facts).unwrap();
    assert_eq!(
        plan,
        prefix.run_in_sandbox_child("/payload", "/system/bin/busybox", &texts(&["sh"]), false, &facts)
    );
    assert_eq!(
        plan.last().unwrap().effect,
        Effect::Execute {
            command: Command {
                program: "/system/bin/busybox".to_string(),
                args: texts(&["/system/bin/busybox", "sh"]),
                env: vec![],
            },
            replace_env: false,
        }
    );
    assert!(prefix.enter_shell("/payload", &no_shell(), &facts).is_err());
}

#[test]
fn child_status_decides_the_result() {
    let prefix = Prefix::new("/p");
    assert!(prefix.run_in_sandbox(&ChildStatus::Exited(0)).is_ok());
    assert!(prefix.run_in_sandbox(&ChildStatus::Other).is_ok());
    let error = prefix.run_in_sandbox(&ChildStatus::Exited(1)).unwrap_err();
    assert_eq!(error.kind, ErrorKind::Exec);
    assert_eq!(error.to_string(), "Child process exited with code 1");
    assert_eq!(
        prefix.run_in_sandbox(&ChildStatus::Exited(-2)).unwrap_err().to_string(),
        "Child process exited with code -2"
    );
    assert_eq!(
        prefix.run_in_sandbox(&ChildStatus::Exited(i32::MIN)).unwrap_err().to_string(),
        "Child process exited with code -2147483648"
    );
    assert_eq!(
        prefix.run_in_sandbox(&ChildStatus::Signaled("SIGKILL".to_string())).unwrap_err().to_string(),
        "Child process killed by signal SIGKILL"
    );
}

#[test]
fn install_unpacks_the_libraries_of_this_machine() {
    let prefix = Prefix::new("/p");
    let info = ApkInfo {
        package_name: "org.example".to_string(),
        supported_abis: vec![Abi::ArmV7a, Abi::X86_64],
    };
    assert_eq!(
        prefix.install_apk("/home/u/app.apk", &info),
        vec![
            mkdir("/p/data/app/org.example"),
            must(
                Effect::CopyFile {
                    from: "/home/u/app.apk".to_string(),
                    to: "/p/data/app/org.example/base.apk".to_string(),
                },
                ErrorKind::Io,
                "Failed to copy the archive"
            ),
            mkdir("/p/data/app/org.example/lib/x86_64"),
            must(
                Effect::ExtractLibraries {
                    archive: "/home/u/app.apk".to_string(),
                    abi: Abi::X86_64,
                    target: "/p/data/app/org.example/lib/x86_64".to_string(),
                },
                ErrorKind::Io,
                "Failed to extract libraries"
            ),
            mkdir("/p/data/data/org.example"),
        ]
    );
    let arm = ApkInfo { package_name: "a".to_string(), supported_abis: vec![Abi::ArmV7a, Abi::X86] };
    assert_eq!(prefix.install_apk("/a.apk", &arm)[2], mkdir("/p/data/app/a/lib/armeabi-v7a"));
    let none = ApkInfo { package_name: "a".to_string(), supported_abis: vec![] };
    assert_eq!(prefix.install_apk("/a.apk", &none).len(), 3);
}

#[test]
fn reset_removes_data_and_logs() {
    let prefix = Prefix::new("/p");
    assert_eq!(
        prefix.reset(&Outcome::Stats(vec![dir(0o755), dir(0o755)])),
        vec![rmtree("/p/data"), rmtree("/p/logs")]
    );
    assert_eq!(
        prefix.reset(&Outcome::Stats(vec![missing(), dir(0o755)])),
        vec![rmtree("/p/logs")]
    );
    assert_eq!(prefix.reset(&Outcome::Stats(vec![])), Vec::new());
}
