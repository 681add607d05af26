use rootless_android::assembly::{
    build_setup_script, choose_init, generate_linkerconfig, prepare_apex_dirs,
};
use rootless_android::container::Container;
use rootless_android::error::ErrorKind;
use rootless_android::host::{
    Command, CommandOutput, DirEntry, Effect, Next, Outcome, PathStat, Signal,
};
use rootless_android::image::{ImagePaths, MountPoints};
use rootless_android::lifecycle::{Phase, Stage};
use rootless_android::tools::{
    check_fuse2fs, fuse2fs_command, fuse2fs_help_command, fuse2fs_mount, fusermount_command,
    fusermount_unmount, nsenter_command, unshare_command, Attempt, Unmounting,
};

const BIG: u64 = 600 * 1024 * 1024;

fn texts(items: &[&str]) -> Vec<String> {
    items.iter().map(|s| s.to_string()).collect()
}

fn plain(program: &str, args: &[&str]) -> Command {
    Command { program: program.to_string(), args: texts(args), env: Vec::new() }
}

fn run(program: &str, args: &[&str]) -> Next {
    Next::Perform(Effect::Run(plain(program, args)))
}

fn exited(success: bool, stdout: &str, stderr: &str) -> Outcome {
    Outcome::Exited(CommandOutput {
        status: if success { Some(0) } else { Some(1) },
        stdout: stdout.to_string(),
        stderr: stderr.to_string(),
    })
}

fn ok() -> Outcome {
    exited(true, "", "")
}

fn failed(reason: &str) -> Outcome {
    Outcome::Failed(reason.to_string())
}

fn file(size: u64) -> PathStat {
    PathStat { exists: true, is_dir: false, size, mode: 0o644 }
}

fn missing() -> PathStat {
    PathStat { exists: false, is_dir: false, size: 0, mode: 0 }
}

fn entry(name: &str, is_dir: bool) -> DirEntry {
    DirEntry { name: name.to_string(), is_dir }
}

fn sample() -> Container {
    let images = ImagePaths::from_dir("/cache").unwrap();
    let mounts = MountPoints::for_prefix("/tmp/p");
    Container::new(images, mounts)
}

fn expected_script() -> String {
    [
        "\n",
        "set -e\n",
        "\n",
        "mount -t overlay overlay \\\n",
        "    -o lowerdir=/tmp/p/.mounts/system,upperdir=/tmp/p/.overlay/upper,workdir=/tmp/p/.overlay/work \\\n",
        "    /tmp/p/rootfs\n",
        "\n",
        "mkdir -p /tmp/p/rootfs/vendor\n",
        "mount --bind /tmp/p/.mounts/vendor /tmp/p/rootfs/vendor\n",
        "\n",
        "if [ -d \"/tmp/p/rootfs/system/apex\" ]; then\n",
        "    for apex_dir in /tmp/p/rootfs/system/apex/*/; do\n",
        "        apex_name=$(basename \"$apex_dir\")\n",
        "        if [ -d \"$apex_dir\" ] && [ -d \"/tmp/p/rootfs/apex/$apex_name\" ]; then\n",
        "            mount --bind \"$apex_dir\" \"/tmp/p/rootfs/apex/$apex_name\"\n",
        "        fi\n",
        "    done\n",
        "fi\n",
        "\n",
        "mkdir -p /tmp/p/rootfs/data/app /tmp/p/rootfs/data/data /tmp/p/rootfs/data/local/tmp \\\n",
        "         /tmp/p/rootfs/data/system /tmp/p/rootfs/data/misc /tmp/p/rootfs/data/dalvik-cache \\\n",
        "         /tmp/p/rootfs/proc /tmp/p/rootfs/sys /tmp/p/rootfs/dev /tmp/p/rootfs/tmp\n",
        "\n",
        "mount -t proc proc /tmp/p/rootfs/proc || true\n",
        "mount -t tmpfs tmpfs /tmp/p/rootfs/dev || true\n",
        "mount -t tmpfs tmpfs /tmp/p/rootfs/tmp || true\n",
        "\n",
        "mknod -m 666 /tmp/p/rootfs/dev/null c 1 3 2>/dev/null || true\n",
        "mknod -m 666 /tmp/p/rootfs/dev/zero c 1 5 2>/dev/null || true\n",
        "mknod -m 666 /tmp/p/rootfs/dev/random c 1 8 2>/dev/null || true\n",
        "mknod -m 666 /tmp/p/rootfs/dev/urandom c 1 9 2>/dev/null || true\n",
        "\n",
        "cd /tmp/p/rootfs\n",
        "exec chroot /tmp/p/rootfs /system/bin/init \\\n",
        "    </dev/null >/dev/null 2>&1\n",
    ]
    .concat()
}

fn expected_linker_config() -> String {
    [
        "dir.system = /system/bin/\n",
        "dir.system = /system/xbin/\n",
        "dir.vendor = /vendor/bin/\n",
        "\n",
        "[system]\n",
        "namespace.default.search.paths = /system/lib64:/system/lib:/apex/com.android.art/lib64:/apex/com.android.runtime/lib64\n",
        "namespace.default.permitted.paths = /system:/apex:/vendor:/data\n",
        "\n",
        "[vendor]\n",
        "namespace.default.search.paths = /vendor/lib64:/vendor/lib:/system/lib64:/system/lib\n",
        "namespace.default.permitted.paths = /system:/apex:/vendor:/data\n",
    ]
    .concat()
}

fn unshare(script: &str) -> Command {
    Command {
        program: "unshare".to_string(),
        args: texts(&[
            "--user",
            "--map-root-user",
            "--pid",
            "--fork",
            "--mount-proc",
            "--uts",
            "--ipc",
            "--mount",
            "--",
            "sh",
            "-c",
            script,
        ]),
        env: vec![
            ("ANDROID_ROOT".to_string(), "/system".to_string()),
            ("ANDROID_DATA".to_string(), "/data".to_string()),
            (
                "PATH".to_string(),
                "/system/bin:/system/xbin:/vendor/bin:/bin:/usr/bin".to_string(),
            ),
        ],
    }
}

/// Takes a container through a start up to the mounting of the vendor image.
fn start_until_vendor_mount(container: &mut Container) {
    assert!(matches!(container.start(), Next::Perform(Effect::Stat(_))));
    assert!(matches!(
        container.resume(Outcome::Stats(vec![file(BIG), file(1)])),
        Next::Perform(Effect::CreateDirs(_))
    ));
    assert!(matches!(container.resume(Outcome::Done), Next::Perform(Effect::Run(_))));
    assert!(matches!(container.resume(ok()), Next::Perform(Effect::Run(_))));
    assert_eq!(container.stage(), Stage::MountingVendor);
}

/// Takes a container through a whole start, with init running as `pid`.
fn start_fully(container: &mut Container, pid: u32) {
    start_until_vendor_mount(container);
    assert!(matches!(container.resume(ok()), Next::Perform(Effect::ListDir(_))));
    assert!(matches!(container.resume(Outcome::Absent), Next::Perform(Effect::CreateDirs(_))));
    assert!(matches!(container.resume(Outcome::Done), Next::Perform(Effect::WriteFile { .. })));
    assert!(matches!(container.resume(Outcome::Done), Next::Perform(Effect::Stat(_))));
    assert!(matches!(
        container.resume(Outcome::Stats(vec![file(1), missing(), missing()])),
        Next::Perform(Effect::Spawn(_))
    ));
    assert!(matches!(container.resume(Outcome::Started(pid)), Next::Perform(Effect::Sleep { .. })));
    assert!(matches!(container.resume(Outcome::Done), Next::Perform(Effect::Signal { .. })));
    let after = container.resume(Outcome::Done);
    match after {
        Next::Done => {}
        Next::Perform(Effect::WriteFile { .. }) => {
            assert_eq!(container.resume(Outcome::Done), Next::Done);
        }
        other => panic!("unexpected {:?}", other),
    }
    assert_eq!(container.phase(), Phase::Running);
    assert_eq!(container.stage(), Stage::Idle);
}

#[test]
fn container_new_not_running() {
    let images = ImagePaths {
        system_img: "/tmp/nonexistent/system.img".to_string(),
        vendor_img: "/tmp/nonexistent/vendor.img".to_string(),
    };
    let mounts = MountPoints::for_prefix("/tmp/nonexistent-prefix");
    let mut container = Container::new(images, mounts);

    assert_eq!(container.is_running(), Next::Answer(false));
    assert!(container.init_pid.is_none());
}

#[test]
fn container_start_fails_without_images() {
    let images = ImagePaths {
        system_img: "/tmp/nonexistent/system.img".to_string(),
        vendor_img: "/tmp/nonexistent/vendor.img".to_string(),
    };
    let mounts = MountPoints::for_prefix("/tmp/nonexistent-prefix");
    let mut container = Container::new(images, mounts);

    let first = container.start();
    assert_eq!(
        first,
        Next::Perform(Effect::Stat(texts(&[
            "/tmp/nonexistent/system.img",
            "/tmp/nonexistent/vendor.img"
        ])))
    );
    let result = container.resume(Outcome::Stats(vec![missing(), missing()]));
    match result {
        Next::Failed(error) => {
            assert!(error.is_image_error());
            assert_eq!(error.kind, ErrorKind::ImageNotFound);
            assert!(error.to_string().contains("System image not found"));
        }
        other => panic!("start should have failed, got {:?}", other),
    }
    // nothing was asked for but the look at the images, and nothing is left
    assert_eq!(container.stage(), Stage::Idle);
    assert_eq!(container.phase(), Phase::NotStarted);
    assert!(!container.needs_teardown());
}

#[test]
fn check_fuse2fs_returns_bool() {
    assert_eq!(fuse2fs_help_command(), plain("fuse2fs", &["--help"]));
    assert!(check_fuse2fs(&ok()));
    assert!(check_fuse2fs(&exited(false, "", "Usage: fuse2fs")));
    assert!(!check_fuse2fs(&exited(false, "Usage", "")));
    assert!(!check_fuse2fs(&failed("No such file or directory")));
}

#[test]
fn start_takes_every_step_in_order() {
    let mut c = sample().with_pid_file("/tmp/p/.container_pid".to_string());
    assert_eq!(c.phase(), Phase::NotStarted);

    assert_eq!(
        c.start(),
        Next::Perform(Effect::Stat(texts(&["/cache/system.img", "/cache/vendor.img"])))
    );
    assert_eq!(
        c.resume(Outcome::Stats(vec![file(BIG), file(1)])),
        Next::Perform(Effect::CreateDirs(texts(&[
            "/tmp/p/.mounts/system",
            "/tmp/p/.mounts/vendor",
            "/tmp/p/rootfs",
            "/tmp/p/.overlay/upper",
            "/tmp/p/.overlay/work",
            "/tmp/p/.overlay/upper/data",
            "/tmp/p/.overlay/upper/data/app",
            "/tmp/p/.overlay/upper/data/data",
            "/tmp/p/.overlay/upper/data/local/tmp",
        ])))
    );
    assert_eq!(c.phase(), Phase::Mounting);
    assert_eq!(
        c.resume(Outcome::Done),
        run("fuse2fs", &["/cache/system.img", "/tmp/p/.mounts/system", "-o", "ro,fakeroot"])
    );
    assert!(!c.system_mounted());
    assert_eq!(
        c.resume(ok()),
        run("fuse2fs", &["/cache/vendor.img", "/tmp/p/.mounts/vendor", "-o", "ro,fakeroot"])
    );
    assert!(c.system_mounted());
    assert!(!c.vendor_mounted());
    assert_eq!(
        c.resume(ok()),
        Next::Perform(Effect::ListDir("/tmp/p/.mounts/system/system/apex".to_string()))
    );
    assert!(c.vendor_mounted());
    assert_eq!(c.phase(), Phase::Assembling);
    assert_eq!(
        c.resume(Outcome::Entries(vec![
            entry("com.android.art", true),
            entry("com.android.runtime", true),
        ])),
        Next::Perform(Effect::CreateDirs(texts(&[
            "/tmp/p/.overlay/upper/apex",
            "/tmp/p/.overlay/upper/apex/com.android.art",
            "/tmp/p/.overlay/upper/apex/com.android.runtime",
            "/tmp/p/.overlay/upper/linkerconfig",
        ])))
    );
    assert_eq!(
        c.resume(Outcome::Done),
        Next::Perform(Effect::WriteFile {
            path: "/tmp/p/.overlay/upper/linkerconfig/ld.config.txt".to_string(),
            contents: expected_linker_config(),
        })
    );
    assert_eq!(
        c.resume(Outcome::Done),
        Next::Perform(Effect::Stat(texts(&[
            "/tmp/p/.mounts/system/init",
            "/tmp/p/.mounts/system/system/bin/init",
            "/tmp/p/.mounts/system/bin/init",
        ])))
    );
    assert_eq!(c.phase(), Phase::Launching);
    assert_eq!(
        c.resume(Outcome::Stats(vec![missing(), file(1), file(1)])),
        Next::Perform(Effect::Spawn(unshare(&expected_script())))
    );
    assert!(c.init_pid.is_none());
    assert_eq!(c.resume(Outcome::Started(4242)), Next::Perform(Effect::Sleep { millis: 500 }));
    assert_eq!(c.init_pid, Some(4242));
    assert!(c.overlay_mounted());
    assert_eq!(
        c.resume(Outcome::Done),
        Next::Perform(Effect::Signal { pid: 4242, signal: Signal::Probe })
    );
    assert_eq!(
        c.resume(Outcome::Done),
        Next::Perform(Effect::WriteFile {
            path: "/tmp/p/.container_pid".to_string(),
            contents: "4242".to_string(),
        })
    );
    assert_eq!(c.phase(), Phase::Running);
    // a pid file that cannot be written does not undo the start
    assert_eq!(c.resume(failed("read-only file system")), Next::Done);
    assert_eq!(c.stage(), Stage::Idle);
    assert_eq!(c.init_pid, Some(4242));
}

#[test]
fn start_without_pid_file_ends_with_the_probe() {
    let mut c = sample();
    start_fully(&mut c, 77);
    assert_eq!(c.init_pid, Some(77));
    assert!(c.needs_teardown());
}

#[test]
fn failed_vendor_mount_releases_the_system_image() {
    let mut c = sample();
    start_until_vendor_mount(&mut c);
    assert!(c.system_mounted());
    // the vendor image cannot be mounted: the system image is given up
    assert_eq!(
        c.resume(exited(false, "", "  vendor.img: bad superblock\n")),
        run("fusermount3", &["-u", "/tmp/p/.mounts/system"])
    );
    assert_eq!(c.stage(), Stage::Releasing(Attempt::Primary));
    let end = c.resume(ok());
    match end {
        Next::Failed(error) => {
            assert_eq!(error.kind, ErrorKind::Mount);
            assert_eq!(
                error.to_string(),
                "Failed to FUSE-mount vendor.img: fuse2fs failed for /cache/vendor.img: vendor.img: bad superblock"
            );
        }
        other => panic!("unexpected {:?}", other),
    }
    assert!(!c.system_mounted());
    assert!(!c.vendor_mounted());
    assert!(!c.needs_teardown());
    assert_eq!(c.stage(), Stage::Idle);
}

#[test]
fn release_tries_all_three_unmounts() {
    let mut c = sample();
    start_until_vendor_mount(&mut c);
    assert_eq!(
        c.resume(failed("fuse2fs: not found")),
        run("fusermount3", &["-u", "/tmp/p/.mounts/system"])
    );
    assert_eq!(
        c.resume(failed("fusermount3: not found")),
        run("fusermount", &["-u", "/tmp/p/.mounts/system"])
    );
    assert_eq!(
        c.resume(exited(false, "", "device busy")),
        run("fusermount", &["-uz", "/tmp/p/.mounts/system"])
    );
    let end = c.resume(exited(false, "", "still busy"));
    match end {
        Next::Failed(error) => {
            assert_eq!(error.kind, ErrorKind::Mount);
            assert_eq!(
                error.to_string(),
                "Failed to FUSE-mount vendor.img: Failed to execute fuse2fs. Is it installed? (pacman -S fuse2fs)"
            );
        }
        other => panic!("unexpected {:?}", other),
    }
    // the system image is given up whatever became of the unmounts
    assert!(!c.system_mounted());
    assert!(!c.vendor_mounted());
}

#[test]
fn failed_system_mount_ends_the_start() {
    let mut c = sample();
    c.start();
    c.resume(Outcome::Stats(vec![file(BIG), file(1)]));
    c.resume(Outcome::Done);
    let end = c.resume(exited(false, "", "fuse: device not found\n"));
    match end {
        Next::Failed(error) => {
            assert_eq!(error.kind, ErrorKind::Mount);
            assert_eq!(
                error.to_string(),
                "fuse2fs failed for /cache/system.img: fuse: device not found"
            );
        }
        other => panic!("unexpected {:?}", other),
    }
    assert!(!c.system_mounted());
    assert!(!c.needs_teardown());
}

#[test]
fn directories_that_cannot_be_made_end_the_start() {
    let mut c = sample();
    c.start();
    c.resume(Outcome::Stats(vec![file(BIG), file(1)]));
    let end = c.resume(failed("/tmp/p/rootfs: permission denied"));
    match end {
        Next::Failed(error) => {
            assert_eq!(error.kind, ErrorKind::Io);
            assert_eq!(
                error.to_string(),
                "Failed to create directory: /tmp/p/rootfs: permission denied"
            );
        }
        other => panic!("unexpected {:?}", other),
    }
}

#[test]
fn apex_workaround_creates_exactly_the_module_directories() {
    let entries = vec![
        entry("com.android.art", true),
        entry("apex-info-list.xml", false),
        entry("com.android.runtime", true),
    ];
    assert_eq!(
        prepare_apex_dirs("/tmp/p/.overlay/upper", &entries),
        texts(&[
            "/tmp/p/.overlay/upper/apex",
            "/tmp/p/.overlay/upper/apex/com.android.art",
            "/tmp/p/.overlay/upper/apex/com.android.runtime",
        ])
    );
    assert_eq!(
        prepare_apex_dirs("/tmp/p/.overlay/upper", &Vec::new()),
        texts(&["/tmp/p/.overlay/upper/apex"])
    );
    // an image without the directory of modules gets none
    let mut c = sample();
    start_until_vendor_mount(&mut c);
    c.resume(ok());
    assert_eq!(
        c.resume(Outcome::Absent),
        Next::Perform(Effect::CreateDirs(texts(&["/tmp/p/.overlay/upper/linkerconfig"])))
    );
    // a listing that failed ends the start
    let mut c = sample();
    start_until_vendor_mount(&mut c);
    c.resume(ok());
    match c.resume(failed("input/output error")) {
        Next::Failed(error) => {
            assert_eq!(error.kind, ErrorKind::Io);
            assert_eq!(error.to_string(), "Failed to read /system/apex directory");
        }
        other => panic!("unexpected {:?}", other),
    }
}

#[test]
fn linker_config_is_the_fixed_policy() {
    assert_eq!(generate_linkerconfig(), expected_linker_config());
    assert_eq!(generate_linkerconfig(), generate_linkerconfig());
    let mut c = sample();
    start_until_vendor_mount(&mut c);
    c.resume(ok());
    c.resume(Outcome::Absent);
    c.resume(Outcome::Done);
    match c.resume(failed("disk full")) {
        Next::Failed(error) => {
            assert_eq!(error.kind, ErrorKind::Io);
            assert_eq!(error.to_string(), "Failed to write linker config");
        }
        other => panic!("unexpected {:?}", other),
    }
}

#[test]
fn init_is_the_first_candidate_found() {
    let found = |a: bool, b: bool, c: bool| {
        let stat = |there: bool| if there { file(1) } else { missing() };
        Outcome::Stats(vec![stat(a), stat(b), stat(c)])
    };
    assert_eq!(choose_init("/m", &found(true, true, true)).unwrap(), "/init");
    assert_eq!(choose_init("/m", &found(true, false, false)).unwrap(), "/init");
    assert_eq!(choose_init("/m", &found(false, true, true)).unwrap(), "/system/bin/init");
    assert_eq!(choose_init("/m", &found(false, false, true)).unwrap(), "/bin/init");
    let error = choose_init("/m", &found(false, false, false)).unwrap_err();
    assert_eq!(error.kind, ErrorKind::Launch);
    assert_eq!(
        error.to_string(),
        "No init binary found in system image. Checked:\n  /m/init\n  /m/system/bin/init\n  /m/bin/init"
    );
    assert!(choose_init("/m", &Outcome::Stats(vec![])).is_err());
    assert!(choose_init("/m", &failed("no")).is_err());
    assert_eq!(choose_init("/m", &Outcome::Stats(vec![file(1)])).unwrap(), "/init");
}

#[test]
fn missing_init_fails_before_any_process_is_made() {
    let mut c = sample();
    start_until_vendor_mount(&mut c);
    c.resume(ok());
    c.resume(Outcome::Absent);
    c.resume(Outcome::Done);
    c.resume(Outcome::Done);
    match c.resume(Outcome::Stats(vec![missing(), missing(), missing()])) {
        Next::Failed(error) => {
            assert_eq!(error.kind, ErrorKind::Launch);
            assert!(error.to_string().starts_with("No init binary found in system image."));
        }
        other => panic!("unexpected {:?}", other),
    }
    assert!(c.init_pid.is_none());
    // both images are still mounted, and are taken down with the container
    assert!(c.needs_teardown());
}

#[test]
fn setup_script_is_assembled_from_the_mount_points() {
    let mounts = MountPoints::for_prefix("/tmp/p");
    let script = build_setup_script(&mounts, "/system/bin/init");
    assert_eq!(script, expected_script());
    assert!(script.starts_with("\nset -e\n"));
    assert!(script.ends_with("exec chroot /tmp/p/rootfs /system/bin/init \\\n    </dev/null >/dev/null 2>&1\n"));
    assert_eq!(unshare_command("true"), unshare("true"));
}

#[test]
fn dead_init_surfaces_its_output() {
    let mut c = sample();
    start_until_vendor_mount(&mut c);
    c.resume(ok());
    c.resume(Outcome::Absent);
    c.resume(Outcome::Done);
    c.resume(Outcome::Done);
    c.resume(Outcome::Stats(vec![file(1)]));
    c.resume(Outcome::Started(9));
    c.resume(Outcome::Done);
    assert_eq!(c.resume(failed("ESRCH")), Next::Perform(Effect::CollectOutput));
    match c.resume(exited(false, "out", "mount: permission denied")) {
        Next::Failed(error) => {
            assert_eq!(error.kind, ErrorKind::Launch);
            assert_eq!(
                error.to_string(),
                "Init process died immediately.\nstdout: out\nstderr: mount: permission denied"
            );
        }
        other => panic!("unexpected {:?}", other),
    }
    assert_eq!(c.phase(), Phase::Launching);
    // init was reaped with its output: it is tracked no longer, and a later
    // stop sends no signal to its process id
    assert!(c.init_pid.is_none());
    assert_eq!(c.init_pid(), None);
    assert!(!c.overlay_mounted());
    // the images are still mounted and are taken down with the container
    assert!(c.needs_teardown());
    assert_eq!(c.discard(), run("fusermount3", &["-u", "/tmp/p/.mounts/vendor"]));
}

#[test]
fn spawn_failure_is_a_launch_error() {
    let mut c = sample();
    start_until_vendor_mount(&mut c);
    c.resume(ok());
    c.resume(Outcome::Absent);
    c.resume(Outcome::Done);
    c.resume(Outcome::Done);
    c.resume(Outcome::Stats(vec![file(1)]));
    match c.resume(failed("unshare: not found")) {
        Next::Failed(error) => {
            assert_eq!(error.kind, ErrorKind::Launch);
            assert_eq!(
                error.to_string(),
                "Failed to spawn container via unshare (is unshare available?)"
            );
        }
        other => panic!("unexpected {:?}", other),
    }
    assert!(c.init_pid.is_none());
}

#[test]
fn stop_takes_the_container_down_in_reverse_order() {
    let mut c = sample().with_pid_file("/tmp/p/.container_pid".to_string());
    start_fully(&mut c, 4242);
    assert_eq!(
        c.stop(),
        Next::Perform(Effect::Signal { pid: 4242, signal: Signal::Terminate })
    );
    assert!(c.init_pid.is_none());
    assert_eq!(c.phase(), Phase::Stopping);
    assert_eq!(c.resume(Outcome::Done), Next::Perform(Effect::Sleep { millis: 2000 }));
    assert_eq!(
        c.resume(Outcome::Done),
        Next::Perform(Effect::Signal { pid: 4242, signal: Signal::Kill })
    );
    assert_eq!(c.resume(failed("ESRCH")), Next::Perform(Effect::Reap { pid: 4242 }));
    assert_eq!(c.resume(Outcome::Done), run("fusermount3", &["-u", "/tmp/p/.mounts/vendor"]));
    assert_eq!(c.resume(ok()), run("fusermount3", &["-u", "/tmp/p/.mounts/system"]));
    assert!(!c.vendor_mounted());
    assert_eq!(
        c.resume(ok()),
        Next::Perform(Effect::RemoveFile("/tmp/p/.container_pid".to_string()))
    );
    assert!(!c.system_mounted());
    assert!(!c.overlay_mounted());
    assert_eq!(c.resume(Outcome::Done), Next::Done);
    assert_eq!(c.phase(), Phase::Stopped);
    assert!(!c.needs_teardown());
}

#[test]
fn stop_goes_on_when_an_unmount_fails() {
    let mut c = sample();
    start_fully(&mut c, 5);
    c.stop();
    // the process cannot be signalled: no grace period, no kill
    assert_eq!(c.resume(failed("ESRCH")), run("fusermount3", &["-u", "/tmp/p/.mounts/vendor"]));
    assert_eq!(c.resume(failed("x")), run("fusermount", &["-u", "/tmp/p/.mounts/vendor"]));
    assert_eq!(
        c.resume(exited(false, "", "busy")),
        run("fusermount", &["-uz", "/tmp/p/.mounts/vendor"])
    );
    // all three failed: the stop goes on with the system image
    assert_eq!(
        c.resume(exited(false, "", "busy")),
        run("fusermount3", &["-u", "/tmp/p/.mounts/system"])
    );
    assert!(c.vendor_mounted());
    assert_eq!(c.resume(exited(false, "", "")), run("fusermount", &["-u", "/tmp/p/.mounts/system"]));
    assert_eq!(c.resume(ok()), Next::Done);
    assert!(!c.system_mounted());
    assert!(c.vendor_mounted());
    assert_eq!(c.phase(), Phase::Stopped);
    // the stop ended well, and what it could not undo is kept as a warning
    assert_eq!(
        c.warnings(),
        vec!["vendor.img FUSE: fusermount -u failed for /tmp/p/.mounts/vendor: busy".to_string()]
    );
}

#[test]
fn stop_warns_of_every_image_that_resists() {
    let mut c = sample();
    start_fully(&mut c, 5);
    assert_eq!(c.warnings(), Vec::<String>::new());
    c.stop();
    c.resume(failed("ESRCH"));
    c.resume(failed("fusermount3: not found"));
    c.resume(exited(false, "", "fusermount: vendor busy\n"));
    c.resume(exited(false, "", "lazy failed"));
    c.resume(failed("fusermount3: not found"));
    c.resume(exited(false, "", "  fusermount: system busy"));
    assert_eq!(c.resume(failed("gone")), Next::Done);
    assert!(c.system_mounted() && c.vendor_mounted());
    assert_eq!(
        c.warnings(),
        vec![
            "vendor.img FUSE: fusermount -u failed for /tmp/p/.mounts/vendor: fusermount: vendor busy"
                .to_string(),
            "system.img FUSE: fusermount -u failed for /tmp/p/.mounts/system: fusermount: system busy"
                .to_string(),
        ]
    );
    // a stop that undoes everything leaves no warning
    c.stop();
    c.resume(ok());
    assert_eq!(c.resume(ok()), Next::Done);
    assert!(!c.needs_teardown());
    assert_eq!(c.warnings(), Vec::<String>::new());
}

#[test]
fn stop_is_idempotent() {
    // never started: nothing to unmount, nothing asked for
    let mut c = sample();
    assert_eq!(c.stop(), Next::Done);
    assert_eq!(c.stop(), Next::Done);
    assert_eq!(c.phase(), Phase::Stopped);
    // started and stopped: the second stop asks for no unmount
    let mut c = sample();
    start_fully(&mut c, 5);
    c.stop();
    c.resume(Outcome::Done);
    c.resume(Outcome::Done);
    c.resume(Outcome::Done);
    c.resume(Outcome::Done);
    c.resume(ok());
    assert_eq!(c.resume(ok()), Next::Done);
    assert_eq!(c.stop(), Next::Done);
    assert!(!c.system_mounted() && !c.vendor_mounted());
    // with a pid file only its removal is asked for
    let mut c = sample().with_pid_file("/run/pid".to_string());
    assert_eq!(c.stop(), Next::Perform(Effect::RemoveFile("/run/pid".to_string())));
    assert_eq!(c.resume(failed("no such file")), Next::Done);
}

#[test]
fn discard_takes_down_what_is_left() {
    let mut c = sample();
    assert_eq!(c.discard(), Next::Done);
    start_fully(&mut c, 31);
    // no explicit stop: discarding does what a stop does
    assert_eq!(c.discard(), Next::Perform(Effect::Signal { pid: 31, signal: Signal::Terminate }));
    c.resume(Outcome::Done);
    c.resume(Outcome::Done);
    c.resume(Outcome::Done);
    assert_eq!(c.resume(Outcome::Done), run("fusermount3", &["-u", "/tmp/p/.mounts/vendor"]));
    assert_eq!(c.resume(ok()), run("fusermount3", &["-u", "/tmp/p/.mounts/system"]));
    assert_eq!(c.resume(ok()), Next::Done);
    assert!(!c.system_mounted());
    assert!(!c.vendor_mounted());
    assert!(!c.needs_teardown());
    assert_eq!(c.discard(), Next::Done);
    // a start that failed behind the mounts leaves them to the discard
    let mut c = sample();
    start_until_vendor_mount(&mut c);
    c.resume(ok());
    c.resume(failed("listing failed"));
    assert!(c.needs_teardown());
    assert_eq!(c.discard(), run("fusermount3", &["-u", "/tmp/p/.mounts/vendor"]));
}

#[test]
fn exec_command_joins_the_namespaces_of_init() {
    let mut c = sample();
    match c.exec_command("ls", &texts(&["-l"])) {
        Next::Failed(error) => {
            assert_eq!(error.kind, ErrorKind::Exec);
            assert_eq!(error.to_string(), "Container is not running (no init PID)");
        }
        other => panic!("unexpected {:?}", other),
    }
    c.init_pid = Some(1234);
    assert_eq!(
        c.exec_command("ls", &texts(&["-l", "/data"])),
        run(
            "nsenter",
            &["-t", "1234", "--user", "--mount", "--uts", "--ipc", "--pid", "--", "ls", "-l", "/data"]
        )
    );
    // the output is handed on whatever the exit status
    assert_eq!(
        c.resume(exited(false, "", "ls: /data: No such file")),
        Next::Output(CommandOutput {
            status: Some(1),
            stdout: String::new(),
            stderr: "ls: /data: No such file".to_string(),
        })
    );
    // the exit status reaches the caller as it was
    c.exec_command("sh", &texts(&["-c", "exit 42"]));
    match c.resume(Outcome::Exited(CommandOutput {
        status: Some(42),
        stdout: String::new(),
        stderr: String::new(),
    })) {
        Next::Output(output) => {
            assert_eq!(output.status, Some(42));
            assert!(!output.success());
        }
        other => panic!("unexpected {:?}", other),
    }
    c.exec_command("true", &Vec::new());
    match c.resume(failed("nsenter: not found")) {
        Next::Failed(error) => assert_eq!(error.to_string(), "Failed to execute nsenter"),
        other => panic!("unexpected {:?}", other),
    }
    assert_eq!(
        nsenter_command(0, "sh", &Vec::new()),
        plain("nsenter", &["-t", "0", "--user", "--mount", "--uts", "--ipc", "--pid", "--", "sh"])
    );
}

#[test]
fn install_apk_copies_into_the_upper_layer() {
    let mut c = sample();
    match c.install_apk("/home/u/app.apk") {
        Next::Failed(error) => {
            assert_eq!(error.kind, ErrorKind::Exec);
            assert_eq!(error.to_string(), "Container is not running");
        }
        other => panic!("unexpected {:?}", other),
    }
    c.init_pid = Some(8);
    assert_eq!(
        c.install_apk("/home/u/app.apk"),
        Next::Perform(Effect::CreateDirs(texts(&["/tmp/p/.overlay/upper/data/local/tmp"])))
    );
    assert_eq!(
        c.resume(Outcome::Done),
        Next::Perform(Effect::CopyFile {
            from: "/home/u/app.apk".to_string(),
            to: "/tmp/p/.overlay/upper/data/local/tmp/install.apk".to_string(),
        })
    );
    assert_eq!(
        c.resume(Outcome::Done),
        run(
            "nsenter",
            &[
                "-t", "8", "--user", "--mount", "--uts", "--ipc", "--pid", "--", "pm", "install",
                "-r", "/data/local/tmp/install.apk"
            ]
        )
    );
    match c.resume(exited(false, "Failure ", "[INSTALL_FAILED_INVALID_APK]")) {
        Next::Failed(error) => {
            assert_eq!(error.kind, ErrorKind::Exec);
            assert_eq!(
                error.to_string(),
                "pm install failed: Failure [INSTALL_FAILED_INVALID_APK]"
            );
        }
        other => panic!("unexpected {:?}", other),
    }
    // the running container is left alone
    assert_eq!(c.init_pid, Some(8));
    c.install_apk("/a.apk");
    c.resume(Outcome::Done);
    match c.resume(failed("no space left")) {
        Next::Failed(error) => {
            assert_eq!(error.kind, ErrorKind::Io);
            assert_eq!(error.to_string(), "Failed to copy APK into container overlay");
        }
        other => panic!("unexpected {:?}", other),
    }
    c.install_apk("/a.apk");
    c.resume(Outcome::Done);
    c.resume(Outcome::Done);
    assert_eq!(c.resume(ok()), Next::Done);
}

#[test]
fn launch_app_names_the_component() {
    let mut c = sample();
    c.init_pid = Some(8);
    assert_eq!(
        c.launch_app("org.fdroid.fdroid", ".views.main.MainActivity"),
        run(
            "nsenter",
            &[
                "-t", "8", "--user", "--mount", "--uts", "--ipc", "--pid", "--", "am", "start",
                "-n", "org.fdroid.fdroid/.views.main.MainActivity"
            ]
        )
    );
    assert_eq!(c.resume(ok()), Next::Done);
    c.launch_app("a", "b");
    match c.resume(exited(false, "Error: ", "Activity class does not exist.")) {
        Next::Failed(error) => {
            assert_eq!(error.kind, ErrorKind::Exec);
            assert_eq!(
                error.to_string(),
                "am start failed: Error: Activity class does not exist."
            );
        }
        other => panic!("unexpected {:?}", other),
    }
    let mut idle = sample();
    assert!(matches!(idle.launch_app("a", "b"), Next::Failed(_)));
}

#[test]
fn is_running_probes_the_tracked_process() {
    let mut c = sample();
    c.init_pid = Some(99);
    assert_eq!(c.is_running(), Next::Perform(Effect::Signal { pid: 99, signal: Signal::Probe }));
    assert_eq!(c.resume(Outcome::Done), Next::Answer(true));
    c.is_running();
    assert_eq!(c.resume(failed("ESRCH")), Next::Answer(false));
    // the process is tracked until a stop, alive or not
    assert_eq!(c.init_pid, Some(99));
}

#[test]
fn wait_for_boot_fails_at_once_when_init_is_dead() {
    let mut c = sample();
    c.init_pid = Some(99);
    assert_eq!(c.wait_for_boot(1), Next::Perform(Effect::ReadClock));
    assert_eq!(c.resume(Outcome::Time(50_000)), Next::Perform(Effect::ReadClock));
    assert_eq!(
        c.resume(Outcome::Time(50_000)),
        Next::Perform(Effect::Signal { pid: 99, signal: Signal::Probe })
    );
    // init is gone: the wait ends here, and no pause was asked for
    match c.resume(failed("ESRCH")) {
        Next::Failed(error) => {
            assert_eq!(error.kind, ErrorKind::Launch);
            assert_eq!(error.to_string(), "Container init process died during boot");
        }
        other => panic!("unexpected {:?}", other),
    }
    assert_eq!(c.stage(), Stage::Idle);
    // no process is tracked at all
    let mut c = sample();
    c.wait_for_boot(1);
    c.resume(Outcome::Time(0));
    assert!(matches!(c.resume(Outcome::Time(0)), Next::Failed(_)));
}

#[test]
fn wait_for_boot_polls_until_the_property_is_set() {
    let mut c = sample();
    c.init_pid = Some(7);
    c.wait_for_boot(120);
    c.resume(Outcome::Time(1_000));
    c.resume(Outcome::Time(1_000));
    assert_eq!(
        c.resume(Outcome::Done),
        run(
            "nsenter",
            &[
                "-t", "7", "--user", "--mount", "--uts", "--ipc", "--pid", "--", "getprop",
                "sys.boot_completed"
            ]
        )
    );
    // not yet: pause, read the clock, look again
    assert_eq!(c.resume(exited(true, "\n", "")), Next::Perform(Effect::Sleep { millis: 2000 }));
    assert_eq!(c.resume(Outcome::Done), Next::Perform(Effect::ReadClock));
    assert_eq!(
        c.resume(Outcome::Time(3_050)),
        Next::Perform(Effect::Signal { pid: 7, signal: Signal::Probe })
    );
    c.resume(Outcome::Done);
    // the property cannot be read yet: keep waiting
    assert_eq!(c.resume(failed("nsenter failed")), Next::Perform(Effect::Sleep { millis: 2000 }));
    c.resume(Outcome::Done);
    c.resume(Outcome::Time(5_100));
    c.resume(Outcome::Done);
    assert_eq!(c.resume(exited(false, " 1\n", "")), Next::Done);
    assert_eq!(c.stage(), Stage::Idle);
}

#[test]
fn wait_for_boot_times_out_past_the_deadline() {
    let mut c = sample();
    c.init_pid = Some(7);
    c.wait_for_boot(3);
    c.resume(Outcome::Time(10_000));
    // exactly the deadline is not past it
    assert!(matches!(c.resume(Outcome::Time(13_000)), Next::Perform(Effect::Signal { .. })));
    c.resume(Outcome::Done);
    c.resume(exited(true, "0", ""));
    c.resume(Outcome::Done);
    match c.resume(Outcome::Time(13_001)) {
        Next::Failed(error) => {
            assert_eq!(error.kind, ErrorKind::BootTimeout);
            assert_eq!(
                error.to_string(),
                "Timeout waiting for Android system to boot after 3s"
            );
        }
        other => panic!("unexpected {:?}", other),
    }
    // the container goes on running
    assert_eq!(c.init_pid, Some(7));
    // a deadline too far for the clock is never passed
    let mut c = sample();
    c.init_pid = Some(7);
    c.wait_for_boot(u64::MAX);
    c.resume(Outcome::Time(0));
    assert!(matches!(c.resume(Outcome::Time(u64::MAX)), Next::Perform(Effect::Signal { .. })));
}

#[test]
fn resume_without_an_operation_does_nothing() {
    let mut c = sample();
    assert_eq!(c.resume(Outcome::Done), Next::Done);
    assert_eq!(c.resume(failed("x")), Next::Done);
    assert_eq!(c.phase(), Phase::NotStarted);
}

#[test]
fn mount_commands_and_their_outcomes() {
    assert_eq!(
        fuse2fs_command("/i/system.img", "/m/system", true),
        plain("fuse2fs", &["/i/system.img", "/m/system", "-o", "ro,fakeroot"])
    );
    assert_eq!(
        fuse2fs_command("/i/data.img", "/m/data", false),
        plain("fuse2fs", &["/i/data.img", "/m/data", "-o", "fakeroot"])
    );
    assert!(fuse2fs_mount("/i/system.img", &ok()).is_ok());
    let error = fuse2fs_mount("/i/system.img", &exited(false, "", " bad magic \n")).unwrap_err();
    assert_eq!(error.kind, ErrorKind::Mount);
    assert_eq!(error.to_string(), "fuse2fs failed for /i/system.img: bad magic");
    let error = fuse2fs_mount("/i/system.img", &failed("not found")).unwrap_err();
    assert_eq!(
        error.to_string(),
        "Failed to execute fuse2fs. Is it installed? (pacman -S fuse2fs)"
    );
}

#[test]
fn unmount_falls_back_twice() {
    assert_eq!(fusermount_command(Attempt::Primary, "/m"), plain("fusermount3", &["-u", "/m"]));
    assert_eq!(fusermount_command(Attempt::Fallback, "/m"), plain("fusermount", &["-u", "/m"]));
    assert_eq!(fusermount_command(Attempt::Lazy, "/m"), plain("fusermount", &["-uz", "/m"]));
    let retry = |attempt: Attempt, diagnostic: &str| {
        Ok(Unmounting::Retry { attempt, diagnostic: diagnostic.to_string() })
    };
    assert_eq!(fusermount_unmount(Attempt::Primary, "/m", "", &ok()), Ok(Unmounting::Released));
    assert_eq!(fusermount_unmount(Attempt::Fallback, "/m", "", &ok()), Ok(Unmounting::Released));
    assert_eq!(fusermount_unmount(Attempt::Lazy, "/m", "busy", &ok()), Ok(Unmounting::Released));
    // the first attempt leaves nothing to say
    assert_eq!(
        fusermount_unmount(Attempt::Primary, "/m", "", &failed("x")),
        retry(Attempt::Fallback, "")
    );
    assert_eq!(
        fusermount_unmount(Attempt::Primary, "/m", "", &exited(false, "", "no fusermount3")),
        retry(Attempt::Fallback, "")
    );
    // what the plain unmount says is kept for the failure
    assert_eq!(
        fusermount_unmount(Attempt::Fallback, "/m", "", &exited(false, "", " busy \n")),
        retry(Attempt::Lazy, "busy")
    );
    assert_eq!(
        fusermount_unmount(Attempt::Fallback, "/m", "", &failed("not found")),
        retry(Attempt::Lazy, "not found")
    );
    // only the failure of the third attempt is the failure of the unmount
    let error =
        fusermount_unmount(Attempt::Lazy, "/m", "busy", &exited(false, "", "still busy"))
            .unwrap_err();
    assert_eq!(error.kind, ErrorKind::Mount);
    assert_eq!(error.to_string(), "fusermount -u failed for /m: busy");
    let error = fusermount_unmount(Attempt::Lazy, "/m", "", &Outcome::Done).unwrap_err();
    assert_eq!(error.to_string(), "fusermount -u failed for /m: ");
}
