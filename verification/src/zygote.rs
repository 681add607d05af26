//! How the runtime's first process is started inside a prefix.

use vstd::prelude::*;
use vstd::string::StringExecFns;

use crate::error::ErrorKind;
use crate::error::ErrorModel;
use crate::error::SandboxError;
use crate::host::Effect;
use crate::host::EffectModel;
use crate::host::Outcome;
use crate::host::OutcomeModel;
use crate::lifecycle::stat_at;
use crate::path::join;
use crate::path::joined_path;
use crate::tools::extend_texts;
use crate::tools::no_texts;
use crate::tools::push_text;

verus! {

pub const ANDROID_ROOT: &'static str = "ANDROID_ROOT";

pub const ANDROID_DATA: &'static str = "ANDROID_DATA";

pub const ANDROID_RUNTIME_ROOT: &'static str = "ANDROID_RUNTIME_ROOT";

pub const LD_LIBRARY_PATH: &'static str = "LD_LIBRARY_PATH";

/// The runtime's launcher, as a path inside the prefix.
pub const APP_PROCESS_PATH: &'static str = "/system/bin/app_process";

/// The class path that the launcher is given.
pub const APP_PROCESS_CLASS_PATH: &'static str = "/system/bin";

/// What to run to start the runtime: the program, its arguments and its
/// environment.
#[derive(Debug, Clone, PartialEq, Eq)]
pub struct ZygoteLaunchSpec {
    pub executable: String,
    pub args: Vec<String>,
    pub env: Vec<(String, String)>,
}

/// What a [`ZygoteLaunchSpec`] is, as plain values.
pub struct ZygoteLaunchModel {
    pub executable: Seq<char>,
    pub args: Seq<Seq<char>>,
    pub env: Seq<(Seq<char>, Seq<char>)>,
}

impl DeepView for ZygoteLaunchSpec {
    type V = ZygoteLaunchModel;

    open spec fn deep_view(&self) -> ZygoteLaunchModel {
        ZygoteLaunchModel {
            executable: self.executable@,
            args: self.args.deep_view(),
            env: self.env.deep_view(),
        }
    }
}

/// Where the runtime's libraries are searched, in order.
pub open spec fn library_path() -> Seq<char> {
    "/system/lib64:/system/lib:/apex/com.android.runtime/lib64:/apex/com.android.runtime/lib"@
}

/// The environment of the runtime. It is the same for every prefix.
pub open spec fn android_env() -> Seq<(Seq<char>, Seq<char>)> {
    seq![
        ("ANDROID_ROOT"@, "/system"@),
        ("ANDROID_DATA"@, "/data"@),
        ("ANDROID_RUNTIME_ROOT"@, "/apex/com.android.runtime"@),
        ("LD_LIBRARY_PATH"@, library_path()),
    ]
}

/// Where the runtime's libraries are searched.
pub fn build_ld_library_path(_prefix_root: &str) -> (r: String)
    ensures
        r@ == library_path(),
{
    let mut parts = no_texts();
    push_text(&mut parts, "/system/lib64");
    push_text(&mut parts, "/system/lib");
    push_text(&mut parts, "/apex/com.android.runtime/lib64");
    push_text(&mut parts, "/apex/com.android.runtime/lib");
    let joined = crate::text::join(&parts, ":");
    proof {
        reveal_strlit("/system/lib64");
        reveal_strlit("/system/lib");
        reveal_strlit("/apex/com.android.runtime/lib64");
        reveal_strlit("/apex/com.android.runtime/lib");
        reveal_strlit(":");
        reveal_strlit(
            "/system/lib64:/system/lib:/apex/com.android.runtime/lib64:/apex/com.android.runtime/lib",
        );
        let p = parts.deep_view();
        let sep = ":"@;
        assert(p.len() == 4);
        assert(p.drop_last().drop_last().drop_last().len() == 1);
        reveal_with_fuel(crate::text::joined, 5);
        assert(joined@ =~= library_path());
    }
    joined
}

/// The environment of the runtime.
pub fn build_android_env(prefix_root: &str) -> (env: Vec<(String, String)>)
    ensures
        env.deep_view() == android_env(),
{
    let mut env: Vec<(String, String)> = Vec::new();
    env.push((String::from_str(ANDROID_ROOT), String::from_str("/system")));
    env.push((String::from_str(ANDROID_DATA), String::from_str("/data")));
    env.push(
        (String::from_str(ANDROID_RUNTIME_ROOT), String::from_str("/apex/com.android.runtime")),
    );
    env.push((String::from_str(LD_LIBRARY_PATH), build_ld_library_path(prefix_root)));
    assert(env.deep_view() =~= android_env());
    env
}

/// What is looked at below a prefix before the runtime is started: the
/// launcher and the two library directories.
pub open spec fn runtime_paths(prefix_root: Seq<char>) -> Seq<Seq<char>> {
    seq![
        joined_path(prefix_root, "system/bin/app_process"@),
        joined_path(prefix_root, "system/lib"@),
        joined_path(prefix_root, "system/lib64"@),
    ]
}

/// The look at the runtime of a prefix that [`validate_runtime_layout`]
/// judges.
pub fn runtime_probe(prefix_root: &str) -> (effect: Effect)
    ensures
        effect.deep_view() == EffectModel::Stat(runtime_paths(prefix_root@)),
{
    let mut paths = no_texts();
    let launcher = join(prefix_root, "system/bin/app_process");
    let lib = join(prefix_root, "system/lib");
    let lib64 = join(prefix_root, "system/lib64");
    push_text(&mut paths, launcher.as_str());
    push_text(&mut paths, lib.as_str());
    push_text(&mut paths, lib64.as_str());
    assert(paths.deep_view() =~= runtime_paths(prefix_root@));
    Effect::Stat(paths)
}

/// What is wrong with the runtime of a prefix, if anything: the launcher
/// must be there, and at least one of the library directories.
pub open spec fn layout_failure(found: OutcomeModel) -> Option<ErrorModel> {
    if !stat_at(found, 0).exists {
        Some(
            ErrorModel {
                kind: ErrorKind::Prefix,
                message: "missing runtime executable: /system/bin/app_process"@,
            },
        )
    } else if !(stat_at(found, 1).exists && stat_at(found, 1).is_dir) && !(stat_at(found, 2).exists
        && stat_at(found, 2).is_dir) {
        Some(
            ErrorModel {
                kind: ErrorKind::Prefix,
                message: "missing runtime libraries under /system/lib or /system/lib64"@,
            },
        )
    } else {
        None
    }
}

fn directory_at(found: &Outcome, i: usize) -> (r: bool)
    ensures
        r == (stat_at(found.deep_view(), i as int).exists && stat_at(
            found.deep_view(),
            i as int,
        ).is_dir),
{
    match found {
        Outcome::Stats(stats) => i < stats.len() && stats[i].exists && stats[i].is_dir,
        _ => false,
    }
}

/// Judges the runtime of a prefix from what was found at the paths of
/// [`runtime_probe`].
pub fn validate_runtime_layout(found: &Outcome) -> (r: Result<(), SandboxError>)
    ensures
        r is Ok <==> layout_failure(found.deep_view()) is None,
        r matches Err(e) ==> Some(e.deep_view()) == layout_failure(found.deep_view()),
{
    if !found.found(0) {
        return Err(
            SandboxError::new(
                ErrorKind::Prefix,
                String::from_str("missing runtime executable: /system/bin/app_process"),
            ),
        );
    }
    if !(directory_at(found, 1) || directory_at(found, 2)) {
        return Err(
            SandboxError::new(
                ErrorKind::Prefix,
                String::from_str("missing runtime libraries under /system/lib or /system/lib64"),
            ),
        );
    }
    Ok(())
}

/// The arguments of the launcher: the class path, the class to run, and the
/// arguments of that class.
pub open spec fn launch_arguments(main_class: Seq<char>, main_args: Seq<Seq<char>>) -> Seq<
    Seq<char>,
> {
    seq!["/system/bin"@, main_class] + main_args
}

/// Says how to start the class `main_class` in the runtime of the prefix
/// `prefix_root`, whose runtime was found as `found` says.
pub fn build_launch_spec(
    prefix_root: &str,
    main_class: &str,
    main_args: &Vec<String>,
    found: &Outcome,
) -> (r: Result<ZygoteLaunchSpec, SandboxError>)
    ensures
        r is Ok <==> layout_failure(found.deep_view()) is None,
        r matches Ok(spec) ==> spec.deep_view() == (ZygoteLaunchModel {
            executable: "/system/bin/app_process"@,
            args: launch_arguments(main_class@, main_args.deep_view()),
            env: android_env(),
        }),
        r matches Err(e) ==> Some(e.deep_view()) == layout_failure(found.deep_view()),
{
    match validate_runtime_layout(found) {
        Ok(()) => {},
        Err(error) => {
            return Err(error);
        },
    }
    let mut args = no_texts();
    push_text(&mut args, APP_PROCESS_CLASS_PATH);
    push_text(&mut args, main_class);
    extend_texts(&mut args, main_args);
    assert(args.deep_view() =~= launch_arguments(main_class@, main_args.deep_view()));
    let env = build_android_env(prefix_root);
    Ok(ZygoteLaunchSpec { executable: String::from_str(APP_PROCESS_PATH), args, env })
}

} // verus!
