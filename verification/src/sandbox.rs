//! Entering the namespaces of a sandbox, and the mounts inside them.
//!
//! A user namespace can only be entered by a process with a single thread,
//! so these plans are for a process that was forked for the purpose. Every
//! step of namespace entry is required: the kernel's refusal is a matter of
//! policy and is not tried again.

use vstd::prelude::*;
use vstd::string::StringExecFns;

use crate::host::Command;
use crate::host::CommandModel;
use crate::host::Effect;
use crate::host::EffectModel;
use crate::host::MountFlags;
use crate::host::MountRequest;
use crate::host::MountRequestModel;
use crate::host::Namespace;
use crate::host::Step;
use crate::host::StepModel;
use crate::path::join;
use crate::path::joined_path;
use crate::error::ErrorKind;
use crate::plan::may;
use crate::plan::must;
use crate::plan::required;
use crate::plan::tolerated;
use crate::text::decimal;
use crate::text::ends_with;
use crate::text::has_suffix;
use crate::text::is_space;
use crate::text::push_decimal;
use crate::text::split;
use crate::text::split_on;
use crate::text::trim;
use crate::text::trimmed;
use crate::text::words;
use crate::text::words_from;
use crate::tools::no_texts;
use crate::tools::push_text;

verus! {

/// Where a sandbox has its root filesystem.
#[derive(Debug, Clone, PartialEq, Eq)]
pub struct SandboxConfig {
    pub rootfs: String,
}

/// The line that maps the identity `outer` of the invoking user to identity
/// zero inside the namespace: the inner identity, the outer identity, and
/// the length of the range, which is one.
pub open spec fn id_map_line(outer: u32) -> Seq<char> {
    "0 "@ + decimal(outer as nat) + " 1"@
}

/// Writes out the mapping line for the identity `outer`.
pub fn id_map(outer: u32) -> (line: String)
    ensures
        line@ == id_map_line(outer),
{
    let mut line = String::from_str("0 ");
    push_decimal(&mut line, outer as u64);
    line.append(" 1");
    line
}

/// The writes that map the invoking user and group to root inside a fresh
/// user namespace. Changes of the supplementary groups are denied before the
/// group mapping is written: the kernel refuses the mapping otherwise. A
/// write that fails is a failure of namespace entry.
pub open spec fn id_mapping(uid: u32, gid: u32) -> Seq<StepModel> {
    seq![
        must(
            EffectModel::WriteFile { path: "/proc/self/uid_map"@, contents: id_map_line(uid) },
            ErrorKind::Namespace,
            "Failed to write uid map"@,
        ),
        must(
            EffectModel::WriteFile { path: "/proc/self/setgroups"@, contents: "deny"@ },
            ErrorKind::Namespace,
            "Failed to deny setgroups"@,
        ),
        must(
            EffectModel::WriteFile { path: "/proc/self/gid_map"@, contents: id_map_line(gid) },
            ErrorKind::Namespace,
            "Failed to write gid map"@,
        ),
    ]
}

fn write_file(path: &str, contents: String, what: &str) -> (step: Step)
    ensures
        step.deep_view() == must(
            EffectModel::WriteFile { path: path@, contents: contents@ },
            ErrorKind::Namespace,
            what@,
        ),
{
    required(
        Effect::WriteFile { path: String::from_str(path), contents },
        ErrorKind::Namespace,
        what,
    )
}

/// Plans the writes that map the invoking user and group to root.
pub fn setup_uid_gid_mapping(uid: u32, gid: u32) -> (plan: Vec<Step>)
    ensures
        plan.deep_view() == id_mapping(uid, gid),
{
    let mut plan: Vec<Step> = Vec::new();
    plan.push(write_file("/proc/self/uid_map", id_map(uid), "Failed to write uid map"));
    plan.push(
        write_file("/proc/self/setgroups", String::from_str("deny"), "Failed to deny setgroups"),
    );
    plan.push(write_file("/proc/self/gid_map", id_map(gid), "Failed to write gid map"));
    assert(plan.deep_view() =~= id_mapping(uid, gid));
    plan
}

/// Namespace entry, for a process whose real user and group are `uid` and
/// `gid`: a fresh user namespace first, then the identity mapping, and only
/// then a fresh mount namespace, since mounting takes the root identity that
/// the mapping gives. Every step is required, and its failure is a failure
/// of namespace entry.
pub open spec fn namespace_entry(uid: u32, gid: u32) -> Seq<StepModel> {
    seq![
        must(
            EffectModel::Unshare(Namespace::User),
            ErrorKind::Namespace,
            "Failed to enter user namespace"@,
        ),
    ] + id_mapping(uid, gid) + seq![
        must(
            EffectModel::Unshare(Namespace::Mount),
            ErrorKind::Namespace,
            "Failed to enter mount namespace"@,
        ),
    ]
}

/// Plans namespace entry for a process whose real user and group, captured
/// before anything else, are `uid` and `gid`.
pub fn enter_namespaces(uid: u32, gid: u32) -> (plan: Vec<Step>)
    ensures
        plan.deep_view() == namespace_entry(uid, gid),
{
    let mut plan: Vec<Step> = Vec::new();
    plan.push(
        required(
            Effect::Unshare(Namespace::User),
            ErrorKind::Namespace,
            "Failed to enter user namespace",
        ),
    );
    plan.push(write_file("/proc/self/uid_map", id_map(uid), "Failed to write uid map"));
    plan.push(
        write_file("/proc/self/setgroups", String::from_str("deny"), "Failed to deny setgroups"),
    );
    plan.push(write_file("/proc/self/gid_map", id_map(gid), "Failed to write gid map"));
    plan.push(
        required(
            Effect::Unshare(Namespace::Mount),
            ErrorKind::Namespace,
            "Failed to enter mount namespace",
        ),
    );
    assert(plan.deep_view() =~= namespace_entry(uid, gid));
    plan
}

/// Namespace entry has five steps in a fixed order: the user namespace, the
/// user mapping, the denial of group changes, the group mapping, and last the
/// mount namespace. Each step is required and its failure is a failure of
/// namespace entry, so that entry stops at the first step the kernel refuses
/// and nothing is tried again.
pub proof fn law_namespace_entry_in_order(uid: u32, gid: u32)
    ensures
        namespace_entry(uid, gid).len() == 5,
        forall|i: int|
            0 <= i < 5 ==> (#[trigger] namespace_entry(uid, gid)[i]).required && namespace_entry(
                uid,
                gid,
            )[i].kind == ErrorKind::Namespace,
        namespace_entry(uid, gid)[0].effect == EffectModel::Unshare(Namespace::User),
        namespace_entry(uid, gid)[1].effect == (EffectModel::WriteFile {
            path: "/proc/self/uid_map"@,
            contents: id_map_line(uid),
        }),
        namespace_entry(uid, gid)[2].effect == (EffectModel::WriteFile {
            path: "/proc/self/setgroups"@,
            contents: "deny"@,
        }),
        namespace_entry(uid, gid)[3].effect == (EffectModel::WriteFile {
            path: "/proc/self/gid_map"@,
            contents: id_map_line(gid),
        }),
        namespace_entry(uid, gid)[4].effect == EffectModel::Unshare(Namespace::Mount),
{
}

/// The mount that makes `source` appear at `target`, with all that is
/// mounted below it.
pub open spec fn bind_request(source: Seq<char>, target: Seq<char>) -> MountRequestModel {
    MountRequestModel {
        source: Some(source),
        target,
        fstype: None,
        flags: MountFlags {
            bind: true,
            recursive: true,
            no_dev: false,
            no_exec: false,
            no_suid: false,
        },
    }
}

/// Asks for `source` to appear at `target`.
pub fn bind_mount(source: &str, target: &str) -> (effect: Effect)
    ensures
        effect.deep_view() == EffectModel::Mount(bind_request(source@, target@)),
{
    Effect::Mount(
        MountRequest {
            source: Some(String::from_str(source)),
            target: String::from_str(target),
            fstype: None,
            flags: MountFlags {
                bind: true,
                recursive: true,
                no_dev: false,
                no_exec: false,
                no_suid: false,
            },
        },
    )
}

/// The mount of an empty filesystem in memory at `target`.
pub open spec fn tmpfs_request(target: Seq<char>) -> MountRequestModel {
    MountRequestModel {
        source: None,
        target,
        fstype: Some("tmpfs"@),
        flags: MountFlags {
            bind: false,
            recursive: false,
            no_dev: false,
            no_exec: false,
            no_suid: false,
        },
    }
}

/// Asks for an empty filesystem in memory at `target`.
pub fn mount_tmpfs(target: &str) -> (effect: Effect)
    ensures
        effect.deep_view() == EffectModel::Mount(tmpfs_request(target@)),
{
    Effect::Mount(
        MountRequest {
            source: None,
            target: String::from_str(target),
            fstype: Some(String::from_str("tmpfs")),
            flags: MountFlags {
                bind: false,
                recursive: false,
                no_dev: false,
                no_exec: false,
                no_suid: false,
            },
        },
    )
}

/// Asks for standard output and standard error to go to the file at
/// `log_path`.
pub fn redirect_stdio(log_path: &str) -> (effect: Effect)
    ensures
        effect.deep_view() == EffectModel::RedirectOutput(log_path@),
{
    Effect::RedirectOutput(String::from_str(log_path))
}

/// The mounts of a root filesystem: the four directories must be there;
/// the scratch filesystems on two of them are tried and may fail.
pub open spec fn basic_mounts(rootfs: Seq<char>) -> Seq<StepModel> {
    seq![
        must(
            EffectModel::CreateDirs(
                seq![
                    joined_path(rootfs, "proc"@),
                    joined_path(rootfs, "sys"@),
                    joined_path(rootfs, "dev"@),
                    joined_path(rootfs, "tmp"@),
                ],
            ),
            ErrorKind::Io,
            "Failed to create mount points"@,
        ),
        may(
            EffectModel::Mount(tmpfs_request(joined_path(rootfs, "dev"@))),
            ErrorKind::Mount,
            "Failed to mount tmpfs on /dev"@,
        ),
        may(
            EffectModel::Mount(tmpfs_request(joined_path(rootfs, "tmp"@))),
            ErrorKind::Mount,
            "Failed to mount tmpfs on /tmp"@,
        ),
    ]
}

/// Plans the mounts of the root filesystem at `rootfs`.
pub fn setup_mounts(rootfs: &str) -> (plan: Vec<Step>)
    ensures
        plan.deep_view() == basic_mounts(rootfs@),
{
    let proc_path = join(rootfs, "proc");
    let sys_path = join(rootfs, "sys");
    let dev_path = join(rootfs, "dev");
    let tmp_path = join(rootfs, "tmp");
    let mut dirs = no_texts();
    push_text(&mut dirs, proc_path.as_str());
    push_text(&mut dirs, sys_path.as_str());
    push_text(&mut dirs, dev_path.as_str());
    push_text(&mut dirs, tmp_path.as_str());
    assert(dirs.deep_view() =~= seq![proc_path@, sys_path@, dev_path@, tmp_path@]);
    let mut plan: Vec<Step> = Vec::new();
    plan.push(required(Effect::CreateDirs(dirs), ErrorKind::Io, "Failed to create mount points"));
    plan.push(
        tolerated(
            mount_tmpfs(dev_path.as_str()),
            ErrorKind::Mount,
            "Failed to mount tmpfs on /dev",
        ),
    );
    plan.push(
        tolerated(
            mount_tmpfs(tmp_path.as_str()),
            ErrorKind::Mount,
            "Failed to mount tmpfs on /tmp",
        ),
    );
    assert(plan.deep_view() =~= basic_mounts(rootfs@));
    plan
}

/// Changing root: into the directory, change of root, and back to the top
/// of what is now the whole tree.
pub open spec fn root_change(path: Seq<char>) -> Seq<StepModel> {
    seq![
        must(EffectModel::ChangeDir(path), ErrorKind::Namespace, "Failed to enter the new root"@),
        must(EffectModel::ChangeRoot(path), ErrorKind::Namespace, "Failed to change root"@),
        must(
            EffectModel::ChangeDir("/"@),
            ErrorKind::Namespace,
            "Failed to enter the top of the new root"@,
        ),
    ]
}

/// Plans the change of root into `path`.
pub fn chroot(path: &str) -> (plan: Vec<Step>)
    ensures
        plan.deep_view() == root_change(path@),
{
    let mut plan: Vec<Step> = Vec::new();
    plan.push(
        required(
            Effect::ChangeDir(String::from_str(path)),
            ErrorKind::Namespace,
            "Failed to enter the new root",
        ),
    );
    plan.push(
        required(
            Effect::ChangeRoot(String::from_str(path)),
            ErrorKind::Namespace,
            "Failed to change root",
        ),
    );
    plan.push(
        required(
            Effect::ChangeDir(String::from_str("/")),
            ErrorKind::Namespace,
            "Failed to enter the top of the new root",
        ),
    );
    assert(plan.deep_view() =~= root_change(path@));
    plan
}

fn copy_texts(texts: &Vec<String>) -> (copy: Vec<String>)
    ensures
        copy.deep_view() == texts.deep_view(),
{
    let mut copy = no_texts();
    crate::tools::extend_texts(&mut copy, texts);
    assert(copy.deep_view() =~= texts.deep_view());
    copy
}

fn copy_pairs(pairs: &Vec<(String, String)>) -> (copy: Vec<(String, String)>)
    ensures
        copy.deep_view() == pairs.deep_view(),
{
    let mut copy: Vec<(String, String)> = Vec::new();
    let mut i: usize = 0;
    while i < pairs.len()
        invariant
            i <= pairs.len(),
            copy.len() == i,
            forall|j: int| 0 <= j < i ==> copy[j].deep_view() == pairs[j].deep_view(),
        decreases pairs.len() - i,
    {
        copy.push((pairs[i].0.clone(), pairs[i].1.clone()));
        i += 1;
    }
    assert(copy.deep_view() =~= pairs.deep_view());
    copy
}

/// Asks for the process to become the program at `path`, with `args` as its
/// whole argument vector and the environment as it is.
pub fn exec(path: &str, args: &Vec<String>) -> (effect: Effect)
    ensures
        effect.deep_view() == (EffectModel::Execute {
            command: CommandModel { program: path@, args: args.deep_view(), env: Seq::empty() },
            replace_env: false,
        }),
{
    let env: Vec<(String, String)> = Vec::new();
    assert(env.deep_view() =~= Seq::<(Seq<char>, Seq<char>)>::empty());
    Effect::Execute {
        command: Command { program: String::from_str(path), args: copy_texts(args), env },
        replace_env: false,
    }
}

/// Asks for the process to become the program at `path`, with `args` as its
/// whole argument vector and `env` as its whole environment.
pub fn exec_with_env(path: &str, args: &Vec<String>, env: &Vec<(String, String)>) -> (effect:
    Effect)
    ensures
        effect.deep_view() == (EffectModel::Execute {
            command: CommandModel {
                program: path@,
                args: args.deep_view(),
                env: env.deep_view(),
            },
            replace_env: true,
        }),
{
    Effect::Execute {
        command: Command {
            program: String::from_str(path),
            args: copy_texts(args),
            env: copy_pairs(env),
        },
        replace_env: true,
    }
}

/// Whether the kernel knows binder filesystems, and whether one is mounted
/// at the usual place.
#[derive(Debug, Clone, Copy, PartialEq, Eq, Structural)]
pub struct BinderfsStatus {
    pub kernel_support: bool,
    pub control_exists: bool,
}

/// Whether a list of filesystems, one to a line, names one that ends in
/// `binder`.
pub open spec fn lists_binder(content: Seq<char>) -> bool {
    exists|i: int|
        0 <= i < split_on(content, '\n').len() && has_suffix(
            trimmed(#[trigger] split_on(content, '\n')[i]),
            "binder"@,
        )
}

/// Tells whether the kernel's list of filesystems names a binder filesystem.
pub fn parse_proc_filesystems(content: &str) -> (r: bool)
    ensures
        r == lists_binder(content@),
{
    let lines = split(content, '\n');
    let mut i: usize = 0;
    while i < lines.len()
        invariant
            i <= lines.len(),
            lines.deep_view() == split_on(content@, '\n'),
            forall|j: int|
                0 <= j < i ==> !has_suffix(
                    trimmed(#[trigger] split_on(content@, '\n')[j]),
                    "binder"@,
                ),
        decreases lines.len() - i,
    {
        let line = trim(lines[i].as_str());
        assert(lines[i as int]@ == lines.deep_view()[i as int]);
        if ends_with(line.as_str(), "binder") {
            return true;
        }
        i += 1;
    }
    false
}

/// Reports on binder from what the host read: the kernel's list of
/// filesystems, if it could be read, and whether the control device is there.
pub fn check_binderfs(filesystems: Option<&str>, control_exists: bool) -> (status: BinderfsStatus)
    ensures
        status.control_exists == control_exists,
        status.kernel_support == (filesystems matches Some(content) && lists_binder(content@)),
{
    let kernel_support = match filesystems {
        Some(content) => parse_proc_filesystems(content),
        None => false,
    };
    BinderfsStatus { kernel_support, control_exists }
}

proof fn lemma_decimal_is_a_word(n: nat)
    ensures
        decimal(n).len() > 0,
        forall|i: int| 0 <= i < decimal(n).len() ==> !is_space(#[trigger] decimal(n)[i]),
    decreases n,
{
    if n >= 10 {
        lemma_decimal_is_a_word(n / 10);
    }
}

proof fn lemma_word_is_read_whole(word: Seq<char>, rest: Seq<char>, cur: Seq<char>)
    requires
        forall|i: int| 0 <= i < word.len() ==> !is_space(#[trigger] word[i]),
    ensures
        words_from(word + rest, cur) == words_from(rest, cur + word),
    decreases word.len(),
{
    if word.len() == 0 {
        assert(word + rest =~= rest);
        assert(cur + word =~= cur);
    } else {
        let text = word + rest;
        assert(text[0] == word[0]);
        assert(text.drop_first() =~= word.drop_first() + rest);
        lemma_word_is_read_whole(word.drop_first(), rest, cur.push(word[0]));
        assert(cur.push(word[0]) + word.drop_first() =~= cur + word);
    }
}

/// For every identity, zero and the overflow identity 65534 among them, the
/// mapping line has exactly three fields between white space: `0`, the outer
/// identity in decimal, and `1`.
pub proof fn law_id_map_has_three_fields(outer: u32)
    ensures
        words(id_map_line(outer)) == seq!["0"@, decimal(outer as nat), "1"@],
{
    reveal_strlit("0 ");
    reveal_strlit(" 1");
    reveal_strlit("0");
    reveal_strlit("1");
    let d = decimal(outer as nat);
    let empty = Seq::<char>::empty();
    lemma_decimal_is_a_word(outer as nat);
    let line = id_map_line(outer);
    let zero = seq!['0'];
    let one = seq!['1'];
    let space = seq![' '];
    assert("0"@ =~= zero);
    assert("1"@ =~= one);
    assert(line =~= zero + (space + d + space + one));
    lemma_word_is_read_whole(zero, space + d + space + one, empty);
    assert(empty + zero =~= zero);
    let r1 = space + d + space + one;
    assert(r1[0] == ' ');
    assert(r1.drop_first() =~= d + (space + one));
    assert(words_from(r1, zero) == seq![zero] + words_from(r1.drop_first(), empty));
    lemma_word_is_read_whole(d, space + one, empty);
    assert(empty + d =~= d);
    let r2 = space + one;
    assert(r2[0] == ' ');
    assert(r2.drop_first() =~= one + empty);
    assert(words_from(r2, d) == seq![d] + words_from(r2.drop_first(), empty));
    lemma_word_is_read_whole(one, empty, empty);
    assert(empty + one =~= one);
    assert(words_from(empty, one) == seq![one]);
    assert(words(line) =~= seq![zero, d, one]);
}

} // verus!
