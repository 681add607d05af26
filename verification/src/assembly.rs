//! The writable layer that is laid over the system image, and the script
//! that assembles the root filesystem inside the fresh namespaces.

use vstd::prelude::*;
use vstd::string::StringExecFns;

use crate::error::ErrorKind;
use crate::error::ErrorModel;
use crate::error::SandboxError;
use crate::host::DirEntry;
use crate::host::DirEntryModel;
use crate::host::Outcome;
use crate::host::OutcomeModel;
use crate::image::MountPoints;
use crate::image::MountPointsModel;
use crate::path::join;
use crate::path::joined_path;
use crate::tools::no_texts;
use crate::tools::push_text;

verus! {

/// The data directories in the upper layer `upper`.
pub open spec fn data_dirs(upper: Seq<char>) -> Seq<Seq<char>> {
    let data = joined_path(upper, "data"@);
    seq![
        data,
        joined_path(data, "app"@),
        joined_path(data, "data"@),
        joined_path(data, "local/tmp"@),
    ]
}

/// Every directory that has to be there before an image is mounted: the five
/// of the sandbox, then the data directories of the upper layer.
pub open spec fn sandbox_dirs(mounts: MountPointsModel) -> Seq<Seq<char>> {
    mounts.all() + data_dirs(mounts.overlay_upper)
}

/// Lists every directory that has to be there before an image is mounted.
pub fn prepare_prefix_dirs(mounts: &MountPoints) -> (dirs: Vec<String>)
    ensures
        dirs.deep_view() == sandbox_dirs(mounts.deep_view()),
{
    let mut dirs = mounts.all();
    let data = join(mounts.overlay_upper.as_str(), "data");
    let app = join(data.as_str(), "app");
    let inner = join(data.as_str(), "data");
    let tmp = join(data.as_str(), "local/tmp");
    push_text(&mut dirs, data.as_str());
    push_text(&mut dirs, app.as_str());
    push_text(&mut dirs, inner.as_str());
    push_text(&mut dirs, tmp.as_str());
    assert(dirs.deep_view() =~= sandbox_dirs(mounts.deep_view()));
    dirs
}

/// Where the system image keeps its modules.
pub open spec fn apex_source(system_mount: Seq<char>) -> Seq<char> {
    joined_path(system_mount, "system/apex"@)
}

/// One directory below `target` for each directory among `entries`, under the
/// same name and in the same order; entries that are no directories are
/// passed over.
pub open spec fn module_dirs(target: Seq<char>, entries: Seq<DirEntryModel>) -> Seq<Seq<char>>
    decreases entries.len(),
{
    if entries.len() == 0 {
        Seq::empty()
    } else {
        let before = module_dirs(target, entries.drop_last());
        if entries.last().is_dir {
            before.push(joined_path(target, entries.last().name))
        } else {
            before
        }
    }
}

/// The directories to create in the upper layer so that every module of the
/// system image finds a writable place of its name: the common parent first,
/// then one directory for each module.
pub open spec fn apex_dirs(upper: Seq<char>, entries: Seq<DirEntryModel>) -> Seq<Seq<char>> {
    let target = joined_path(upper, "apex"@);
    seq![target] + module_dirs(target, entries)
}

/// Lists the directories to create in the upper layer for the modules that
/// the system image holds.
pub fn prepare_apex_dirs(upper: &str, entries: &Vec<DirEntry>) -> (dirs: Vec<String>)
    ensures
        dirs.deep_view() == apex_dirs(upper@, entries.deep_view()),
{
    let target = join(upper, "apex");
    let mut dirs = no_texts();
    push_text(&mut dirs, target.as_str());
    let mut i: usize = 0;
    assert(entries.deep_view().take(0) =~= Seq::<DirEntryModel>::empty());
    assert(dirs.deep_view() =~= seq![target@] + module_dirs(target@, entries.deep_view().take(0)));
    while i < entries.len()
        invariant
            i <= entries.len(),
            target@ == joined_path(upper@, "apex"@),
            dirs.deep_view() == seq![target@] + module_dirs(
                target@,
                entries.deep_view().take(i as int),
            ),
        decreases entries.len() - i,
    {
        let ghost head = entries.deep_view().take(i as int);
        let ghost next = entries.deep_view().take(i + 1);
        assert(next.drop_last() =~= head);
        assert(next.last() == entries[i as int].deep_view());
        if entries[i].is_dir {
            let dir = join(target.as_str(), entries[i].name.as_str());
            push_text(&mut dirs, dir.as_str());
        }
        assert(dirs.deep_view() =~= seq![target@] + module_dirs(target@, next));
        i += 1;
    }
    assert(entries.deep_view().take(entries.len() as int) =~= entries.deep_view());
    dirs
}

/// The workaround creates exactly one directory for each directory among the
/// entries, no more and no fewer, under the entry's name and in the order of
/// the listing.
pub proof fn law_one_directory_per_module(target: Seq<char>, entries: Seq<DirEntryModel>)
    ensures
        module_dirs(target, entries) == entries.filter(|e: DirEntryModel| e.is_dir).map_values(
            |e: DirEntryModel| joined_path(target, e.name),
        ),
        module_dirs(target, entries).len() == entries.filter(|e: DirEntryModel| e.is_dir).len(),
    decreases entries.len(),
{
    let is_dir = |e: DirEntryModel| e.is_dir;
    let named = |e: DirEntryModel| joined_path(target, e.name);
    reveal(Seq::filter);
    if entries.len() == 0 {
        assert(entries.filter(is_dir).map_values(named) =~= Seq::<Seq<char>>::empty());
    } else {
        law_one_directory_per_module(target, entries.drop_last());
        let before = entries.drop_last().filter(is_dir);
        if entries.last().is_dir {
            assert(entries.filter(is_dir) == before.push(entries.last()));
            assert(before.push(entries.last()).map_values(named) =~= before.map_values(named).push(
                named(entries.last()),
            ));
        } else {
            assert(entries.filter(is_dir) == before);
        }
    }
}

/// The directory of the linker's policy file in the upper layer `upper`.
pub open spec fn linker_config_dir(upper: Seq<char>) -> Seq<char> {
    joined_path(upper, "linkerconfig"@)
}

/// The linker's policy file in the upper layer `upper`.
pub open spec fn linker_config_path(upper: Seq<char>) -> Seq<char> {
    joined_path(linker_config_dir(upper), "ld.config.txt"@)
}

/// Where the linker's policy file goes.
pub fn linker_config_file(upper: &str) -> (path: String)
    ensures
        path@ == linker_config_path(upper@),
{
    let dir = join(upper, "linkerconfig");
    join(dir.as_str(), "ld.config.txt")
}

/// The policy of the dynamic linker: libraries are searched below the system
/// and vendor partitions, and may be loaded from the system, apex, vendor and
/// data trees. It is the same for every image.
pub open spec fn linker_config() -> Seq<char> {
    "dir.system = /system/bin/\n"@
        + "dir.system = /system/xbin/\n"@
        + "dir.vendor = /vendor/bin/\n"@
        + "\n"@
        + "[system]\n"@
        + "namespace.default.search.paths = /system/lib64:/system/lib:/apex/com.android.art/lib64:/apex/com.android.runtime/lib64\n"@
        + "namespace.default.permitted.paths = /system:/apex:/vendor:/data\n"@
        + "\n"@
        + "[vendor]\n"@
        + "namespace.default.search.paths = /vendor/lib64:/vendor/lib:/system/lib64:/system/lib\n"@
        + "namespace.default.permitted.paths = /system:/apex:/vendor:/data\n"@
}

/// Writes out the policy of the dynamic linker.
pub fn generate_linkerconfig() -> (config: String)
    ensures
        config@ == linker_config(),
{
    let mut out = String::from_str("dir.system = /system/bin/\n");
    out.append("dir.system = /system/xbin/\n");
    out.append("dir.vendor = /vendor/bin/\n");
    out.append("\n");
    out.append("[system]\n");
    out.append("namespace.default.search.paths = /system/lib64:/system/lib:/apex/com.android.art/lib64:/apex/com.android.runtime/lib64\n");
    out.append("namespace.default.permitted.paths = /system:/apex:/vendor:/data\n");
    out.append("\n");
    out.append("[vendor]\n");
    out.append("namespace.default.search.paths = /vendor/lib64:/vendor/lib:/system/lib64:/system/lib\n");
    out.append("namespace.default.permitted.paths = /system:/apex:/vendor:/data\n");
    out
}

/// Where init is looked for below the mounted system image, in order of
/// preference.
pub open spec fn init_candidates(system_mount: Seq<char>) -> Seq<Seq<char>> {
    seq![
        joined_path(system_mount, "init"@),
        joined_path(system_mount, "system/bin/init"@),
        joined_path(system_mount, "bin/init"@),
    ]
}

/// Lists where init is looked for.
pub fn init_paths(system_mount: &str) -> (paths: Vec<String>)
    ensures
        paths.deep_view() == init_candidates(system_mount@),
{
    let mut paths = no_texts();
    let first = join(system_mount, "init");
    let second = join(system_mount, "system/bin/init");
    let third = join(system_mount, "bin/init");
    push_text(&mut paths, first.as_str());
    push_text(&mut paths, second.as_str());
    push_text(&mut paths, third.as_str());
    assert(paths.deep_view() =~= init_candidates(system_mount@));
    paths
}

/// The init binary to run, as a path inside the container: the first
/// candidate that was found. `None` where none was.
pub open spec fn chosen_init(found: OutcomeModel) -> Option<Seq<char>> {
    if found.found(0) {
        Some("/init"@)
    } else if found.found(1) {
        Some("/system/bin/init"@)
    } else if found.found(2) {
        Some("/bin/init"@)
    } else {
        None
    }
}

/// The failure for an image that holds no init binary.
pub open spec fn no_init(system_mount: Seq<char>) -> ErrorModel {
    ErrorModel {
        kind: ErrorKind::Launch,
        message: "No init binary found in system image. Checked:\n  "@ + system_mount
            + "/init\n  "@ + system_mount + "/system/bin/init\n  "@ + system_mount
            + "/bin/init"@,
    }
}

/// Picks the init binary from what was found at the candidates of
/// [`init_paths`]: the earliest match wins.
pub fn choose_init(system_mount: &str, found: &Outcome) -> (r: Result<&'static str, SandboxError>)
    ensures
        r is Ok <==> chosen_init(found.deep_view()) is Some,
        r matches Ok(init) ==> Some(init@) == chosen_init(found.deep_view()),
        r matches Err(e) ==> e.deep_view() == no_init(system_mount@),
{
    if found.found(0) {
        Ok("/init")
    } else if found.found(1) {
        Ok("/system/bin/init")
    } else if found.found(2) {
        Ok("/bin/init")
    } else {
        let mut message = String::from_str("No init binary found in system image. Checked:\n  ");
        message.append(system_mount);
        message.append("/init\n  ");
        message.append(system_mount);
        message.append("/system/bin/init\n  ");
        message.append(system_mount);
        message.append("/bin/init");
        Err(SandboxError::new(ErrorKind::Launch, message))
    }
}

/// The script stops at the first command that fails.
pub open spec fn prologue() -> Seq<char> {
    "\nset -e\n\n"@
}

fn push_prologue(out: &mut String)
    ensures
        final(out)@ == old(out)@ + prologue(),
{
    out.append("\nset -e\n\n");
    assert(out@ =~= old(out)@ + prologue());
}

/// The overlay is mounted on the root filesystem: the system image below, the
/// upper layer above.
pub open spec fn overlay_mount(mounts: MountPointsModel) -> Seq<char> {
    "mount -t overlay overlay \\\n    -o lowerdir="@
        + mounts.system_mount
        + ",upperdir="@
        + mounts.overlay_upper
        + ",workdir="@
        + mounts.overlay_work
        + " \\\n    "@
        + mounts.rootfs
        + "\n\n"@
}

fn push_overlay_mount(out: &mut String, mounts: &MountPoints)
    ensures
        final(out)@ == old(out)@ + overlay_mount(mounts.deep_view()),
{
    out.append("mount -t overlay overlay \\\n    -o lowerdir=");
    out.append(mounts.system_mount.as_str());
    out.append(",upperdir=");
    out.append(mounts.overlay_upper.as_str());
    out.append(",workdir=");
    out.append(mounts.overlay_work.as_str());
    out.append(" \\\n    ");
    out.append(mounts.rootfs.as_str());
    out.append("\n\n");
    assert(out@ =~= old(out)@ + overlay_mount(mounts.deep_view()));
}

/// The vendor image is bound into the merged tree.
pub open spec fn vendor_bind(mounts: MountPointsModel) -> Seq<char> {
    "mkdir -p "@
        + mounts.rootfs
        + "/vendor\nmount --bind "@
        + mounts.vendor_mount
        + " "@
        + mounts.rootfs
        + "/vendor\n\n"@
}

fn push_vendor_bind(out: &mut String, mounts: &MountPoints)
    ensures
        final(out)@ == old(out)@ + vendor_bind(mounts.deep_view()),
{
    out.append("mkdir -p ");
    out.append(mounts.rootfs.as_str());
    out.append("/vendor\nmount --bind ");
    out.append(mounts.vendor_mount.as_str());
    out.append(" ");
    out.append(mounts.rootfs.as_str());
    out.append("/vendor\n\n");
    assert(out@ =~= old(out)@ + vendor_bind(mounts.deep_view()));
}

/// Each module of the system image is bound to the directory of its name that
/// was made for it in the upper layer.
pub open spec fn apex_binds(mounts: MountPointsModel) -> Seq<char> {
    "if [ -d \""@
        + mounts.rootfs
        + "/system/apex\" ]; then\n    for apex_dir in "@
        + mounts.rootfs
        + "/system/apex/*/; do\n        apex_name=$(basename \"$apex_dir\")\n        if [ -d \"$apex_dir\" ] && [ -d \""@
        + mounts.rootfs
        + "/apex/$apex_name\" ]; then\n            mount --bind \"$apex_dir\" \""@
        + mounts.rootfs
        + "/apex/$apex_name\"\n        fi\n    done\nfi\n\n"@
}

fn push_apex_binds(out: &mut String, mounts: &MountPoints)
    ensures
        final(out)@ == old(out)@ + apex_binds(mounts.deep_view()),
{
    out.append("if [ -d \"");
    out.append(mounts.rootfs.as_str());
    out.append("/system/apex\" ]; then\n    for apex_dir in ");
    out.append(mounts.rootfs.as_str());
    out.append("/system/apex/*/; do\n        apex_name=$(basename \"$apex_dir\")\n        if [ -d \"$apex_dir\" ] && [ -d \"");
    out.append(mounts.rootfs.as_str());
    out.append("/apex/$apex_name\" ]; then\n            mount --bind \"$apex_dir\" \"");
    out.append(mounts.rootfs.as_str());
    out.append("/apex/$apex_name\"\n        fi\n    done\nfi\n\n");
    assert(out@ =~= old(out)@ + apex_binds(mounts.deep_view()));
}

/// The directories for data, for the kernel's filesystems and for devices are
/// made in the merged tree.
pub open spec fn directories(mounts: MountPointsModel) -> Seq<char> {
    "mkdir -p "@
        + mounts.rootfs
        + "/data/app "@
        + mounts.rootfs
        + "/data/data "@
        + mounts.rootfs
        + "/data/local/tmp \\\n         "@
        + mounts.rootfs
        + "/data/system "@
        + mounts.rootfs
        + "/data/misc "@
        + mounts.rootfs
        + "/data/dalvik-cache \\\n         "@
        + mounts.rootfs
        + "/proc "@
        + mounts.rootfs
        + "/sys "@
        + mounts.rootfs
        + "/dev "@
        + mounts.rootfs
        + "/tmp\n\n"@
}

fn push_directories(out: &mut String, mounts: &MountPoints)
    ensures
        final(out)@ == old(out)@ + directories(mounts.deep_view()),
{
    out.append("mkdir -p ");
    out.append(mounts.rootfs.as_str());
    out.append("/data/app ");
    out.append(mounts.rootfs.as_str());
    out.append("/data/data ");
    out.append(mounts.rootfs.as_str());
    out.append("/data/local/tmp \\\n         ");
    out.append(mounts.rootfs.as_str());
    out.append("/data/system ");
    out.append(mounts.rootfs.as_str());
    out.append("/data/misc ");
    out.append(mounts.rootfs.as_str());
    out.append("/data/dalvik-cache \\\n         ");
    out.append(mounts.rootfs.as_str());
    out.append("/proc ");
    out.append(mounts.rootfs.as_str());
    out.append("/sys ");
    out.append(mounts.rootfs.as_str());
    out.append("/dev ");
    out.append(mounts.rootfs.as_str());
    out.append("/tmp\n\n");
    assert(out@ =~= old(out)@ + directories(mounts.deep_view()));
}

/// The process filesystem and two scratch filesystems are mounted, as far as
/// the kernel allows.
pub open spec fn scratch_mounts(mounts: MountPointsModel) -> Seq<char> {
    "mount -t proc proc "@
        + mounts.rootfs
        + "/proc || true\nmount -t tmpfs tmpfs "@
        + mounts.rootfs
        + "/dev || true\nmount -t tmpfs tmpfs "@
        + mounts.rootfs
        + "/tmp || true\n\n"@
}

fn push_scratch_mounts(out: &mut String, mounts: &MountPoints)
    ensures
        final(out)@ == old(out)@ + scratch_mounts(mounts.deep_view()),
{
    out.append("mount -t proc proc ");
    out.append(mounts.rootfs.as_str());
    out.append("/proc || true\nmount -t tmpfs tmpfs ");
    out.append(mounts.rootfs.as_str());
    out.append("/dev || true\nmount -t tmpfs tmpfs ");
    out.append(mounts.rootfs.as_str());
    out.append("/tmp || true\n\n");
    assert(out@ =~= old(out)@ + scratch_mounts(mounts.deep_view()));
}

/// The device nodes null, zero, random and urandom are made, as far as the
/// kernel allows.
pub open spec fn device_nodes(mounts: MountPointsModel) -> Seq<char> {
    "mknod -m 666 "@
        + mounts.rootfs
        + "/dev/null c 1 3 2>/dev/null || true\nmknod -m 666 "@
        + mounts.rootfs
        + "/dev/zero c 1 5 2>/dev/null || true\nmknod -m 666 "@
        + mounts.rootfs
        + "/dev/random c 1 8 2>/dev/null || true\nmknod -m 666 "@
        + mounts.rootfs
        + "/dev/urandom c 1 9 2>/dev/null || true\n\n"@
}

fn push_device_nodes(out: &mut String, mounts: &MountPoints)
    ensures
        final(out)@ == old(out)@ + device_nodes(mounts.deep_view()),
{
    out.append("mknod -m 666 ");
    out.append(mounts.rootfs.as_str());
    out.append("/dev/null c 1 3 2>/dev/null || true\nmknod -m 666 ");
    out.append(mounts.rootfs.as_str());
    out.append("/dev/zero c 1 5 2>/dev/null || true\nmknod -m 666 ");
    out.append(mounts.rootfs.as_str());
    out.append("/dev/random c 1 8 2>/dev/null || true\nmknod -m 666 ");
    out.append(mounts.rootfs.as_str());
    out.append("/dev/urandom c 1 9 2>/dev/null || true\n\n");
    assert(out@ =~= old(out)@ + device_nodes(mounts.deep_view()));
}

/// The root is changed into the merged tree, and init takes the place of the
/// script, cut off from the output of the supervisor.
pub open spec fn change_root(mounts: MountPointsModel, init: Seq<char>) -> Seq<char> {
    "cd "@
        + mounts.rootfs
        + "\nexec chroot "@
        + mounts.rootfs
        + " "@
        + init
        + " \\\n    </dev/null >/dev/null 2>&1\n"@
}

fn push_change_root(out: &mut String, mounts: &MountPoints, init: &str)
    ensures
        final(out)@ == old(out)@ + change_root(mounts.deep_view(), init@),
{
    out.append("cd ");
    out.append(mounts.rootfs.as_str());
    out.append("\nexec chroot ");
    out.append(mounts.rootfs.as_str());
    out.append(" ");
    out.append(init);
    out.append(" \\\n    </dev/null >/dev/null 2>&1\n");
    assert(out@ =~= old(out)@ + change_root(mounts.deep_view(), init@));
}

/// The script that runs inside the fresh namespaces. In this order it mounts
/// the overlay, binds the vendor image and the modules of the system image
/// into the merged tree, makes the directories, mounts the process
/// filesystem and the scratch filesystems, makes the device nodes, and
/// changes root into the merged tree to run `init` there.
pub open spec fn setup_script(mounts: MountPointsModel, init: Seq<char>) -> Seq<char> {
    prologue()
        + overlay_mount(mounts)
        + vendor_bind(mounts)
        + apex_binds(mounts)
        + directories(mounts)
        + scratch_mounts(mounts)
        + device_nodes(mounts)
        + change_root(mounts, init)
}

/// Writes out the script that assembles the root filesystem and runs `init`.
pub fn build_setup_script(mounts: &MountPoints, init: &str) -> (script: String)
    ensures
        script@ == setup_script(mounts.deep_view(), init@),
{
    let mut out = String::new();
    push_prologue(&mut out);
    push_overlay_mount(&mut out, mounts);
    push_vendor_bind(&mut out, mounts);
    push_apex_binds(&mut out, mounts);
    push_directories(&mut out, mounts);
    push_scratch_mounts(&mut out, mounts);
    push_device_nodes(&mut out, mounts);
    push_change_root(&mut out, mounts, init);
    assert(out@ =~= setup_script(mounts.deep_view(), init@));
    out
}

} // verus!
