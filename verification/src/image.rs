//! The two backing images, and the directories that a sandbox root gives them.

use vstd::prelude::*;
use vstd::string::StringExecFns;

use crate::error::ErrorKind;
use crate::error::ErrorModel;
use crate::error::SandboxError;
use crate::host::Effect;
use crate::host::EffectModel;
use crate::host::PathStat;
use crate::path::as_directory;
use crate::path::join;
use crate::path::joined_path;
use crate::path::lemma_join_relative;
use crate::text::decimal;
use crate::text::push_decimal;

verus! {

/// The smallest size, in bytes, that a system image can have: 500 MiB.
pub const MIN_SYSTEM_IMAGE_BYTES: u64 = 524_288_000;

/// Where the two backing images lie.
#[derive(Debug, Clone, PartialEq, Eq)]
pub struct ImagePaths {
    /// The image of the system partition.
    pub system_img: String,
    /// The image of the vendor partition.
    pub vendor_img: String,
}

/// What an [`ImagePaths`] is, as plain values.
pub struct ImagePathsModel {
    pub system_img: Seq<char>,
    pub vendor_img: Seq<char>,
}

impl DeepView for ImagePaths {
    type V = ImagePathsModel;

    open spec fn deep_view(&self) -> ImagePathsModel {
        ImagePathsModel { system_img: self.system_img@, vendor_img: self.vendor_img@ }
    }
}

/// The images of a cache directory.
pub open spec fn images_in(cache_dir: Seq<char>) -> ImagePathsModel {
    ImagePathsModel {
        system_img: joined_path(cache_dir, "system.img"@),
        vendor_img: joined_path(cache_dir, "vendor.img"@),
    }
}

/// The cache directory below a home directory.
pub open spec fn default_cache_dir(home: Seq<char>) -> Seq<char> {
    joined_path(joined_path(home, ".local/share/rad"@), "cache"@)
}

/// The hint that follows the report of a missing image.
pub open spec fn setup_hint() -> Seq<char> {
    "\nRun 'run-android-app setup' or './scripts/setup-image.sh' to download images."@
}

/// The failure of validation, if any. The system image is looked at first,
/// and its size only once both images are there.
pub open spec fn validation(images: ImagePathsModel, system: PathStat, vendor: PathStat) -> Option<
    ErrorModel,
> {
    if !system.exists {
        Some(
            ErrorModel {
                kind: ErrorKind::ImageNotFound,
                message: "System image not found: "@ + images.system_img + setup_hint(),
            },
        )
    } else if !vendor.exists {
        Some(
            ErrorModel {
                kind: ErrorKind::ImageNotFound,
                message: "Vendor image not found: "@ + images.vendor_img + setup_hint(),
            },
        )
    } else if system.size < MIN_SYSTEM_IMAGE_BYTES {
        Some(
            ErrorModel {
                kind: ErrorKind::ImageTooSmall,
                message: "System image too small ("@ + decimal(system.size as nat)
                    + " bytes), expected at least 500MB. May be corrupted."@,
            },
        )
    } else {
        None
    }
}

impl ImagePaths {
    /// The images in the cache below the user's home directory. Without a
    /// home directory there is no such place.
    pub fn default_location(home: Option<&str>) -> (r: Result<ImagePaths, SandboxError>)
        ensures
            r is Ok <==> home is Some,
            r matches Ok(images) ==> images.deep_view() == images_in(
                default_cache_dir(home->Some_0@),
            ),
            r matches Err(e) ==> e.deep_view() == (ErrorModel {
                kind: ErrorKind::ImageNotFound,
                message: "HOME environment variable not set"@,
            }),
    {
        match home {
            Some(home) => {
                let data_dir = join(home, ".local/share/rad");
                let cache_dir = join(data_dir.as_str(), "cache");
                ImagePaths::from_dir(cache_dir.as_str())
            },
            None => Err(
                SandboxError::new(
                    ErrorKind::ImageNotFound,
                    String::from_str("HOME environment variable not set"),
                ),
            ),
        }
    }

    /// The images of a cache directory. Nothing is looked at yet.
    pub fn from_dir(cache_dir: &str) -> (r: Result<ImagePaths, SandboxError>)
        ensures
            r matches Ok(images) && images.deep_view() == images_in(cache_dir@),
    {
        Ok(
            ImagePaths {
                system_img: join(cache_dir, "system.img"),
                vendor_img: join(cache_dir, "vendor.img"),
            },
        )
    }

    /// The paths to look at before [`ImagePaths::validate`].
    pub fn probe(&self) -> (effect: Effect)
        ensures
            effect.deep_view() == EffectModel::Stat(seq![self.system_img@, self.vendor_img@]),
    {
        let mut paths: Vec<String> = Vec::new();
        paths.push(self.system_img.clone());
        paths.push(self.vendor_img.clone());
        assert(paths.deep_view() =~= seq![self.system_img@, self.vendor_img@]);
        Effect::Stat(paths)
    }

    /// Checks what was found at the two paths: both images are there, and the
    /// system image has at least [`MIN_SYSTEM_IMAGE_BYTES`].
    pub fn validate(&self, system: &PathStat, vendor: &PathStat) -> (r: Result<(), SandboxError>)
        ensures
            r is Ok <==> system.exists && vendor.exists && system.size >= MIN_SYSTEM_IMAGE_BYTES,
            r is Ok <==> validation(self.deep_view(), *system, *vendor) is None,
            r matches Err(e) ==> Some(e.deep_view()) == validation(
                self.deep_view(),
                *system,
                *vendor,
            ),
            r matches Err(e) ==> e.kind.is_image(),
    {
        if !system.exists {
            let mut message = String::from_str("System image not found: ");
            message.append(self.system_img.as_str());
            message.append(
                "\nRun 'run-android-app setup' or './scripts/setup-image.sh' to download images.",
            );
            return Err(SandboxError::new(ErrorKind::ImageNotFound, message));
        }
        if !vendor.exists {
            let mut message = String::from_str("Vendor image not found: ");
            message.append(self.vendor_img.as_str());
            message.append(
                "\nRun 'run-android-app setup' or './scripts/setup-image.sh' to download images.",
            );
            return Err(SandboxError::new(ErrorKind::ImageNotFound, message));
        }
        if system.size < MIN_SYSTEM_IMAGE_BYTES {
            let mut message = String::from_str("System image too small (");
            push_decimal(&mut message, system.size);
            message.append(" bytes), expected at least 500MB. May be corrupted.");
            return Err(SandboxError::new(ErrorKind::ImageTooSmall, message));
        }
        Ok(())
    }
}

/// The directories of a sandbox: where the images are mounted, where the
/// merged root filesystem appears, and the writable layers below it.
#[derive(Debug, Clone, PartialEq, Eq)]
pub struct MountPoints {
    /// Where the system image is mounted, read-only.
    pub system_mount: String,
    /// Where the vendor image is mounted, read-only.
    pub vendor_mount: String,
    /// The merged root filesystem of the container.
    pub rootfs: String,
    /// The writable upper layer of the overlay.
    pub overlay_upper: String,
    /// The work directory of the overlay.
    pub overlay_work: String,
}

/// What a [`MountPoints`] is, as plain values.
pub struct MountPointsModel {
    pub system_mount: Seq<char>,
    pub vendor_mount: Seq<char>,
    pub rootfs: Seq<char>,
    pub overlay_upper: Seq<char>,
    pub overlay_work: Seq<char>,
}

impl DeepView for MountPoints {
    type V = MountPointsModel;

    open spec fn deep_view(&self) -> MountPointsModel {
        MountPointsModel {
            system_mount: self.system_mount@,
            vendor_mount: self.vendor_mount@,
            rootfs: self.rootfs@,
            overlay_upper: self.overlay_upper@,
            overlay_work: self.overlay_work@,
        }
    }
}

/// The directories below a sandbox root.
pub open spec fn mount_points_of(root: Seq<char>) -> MountPointsModel {
    MountPointsModel {
        system_mount: joined_path(root, ".mounts/system"@),
        vendor_mount: joined_path(root, ".mounts/vendor"@),
        rootfs: joined_path(root, "rootfs"@),
        overlay_upper: joined_path(root, ".overlay/upper"@),
        overlay_work: joined_path(root, ".overlay/work"@),
    }
}

impl MountPointsModel {
    /// The five directories, in the order in which they are created.
    pub open spec fn all(self) -> Seq<Seq<char>> {
        seq![
            self.system_mount,
            self.vendor_mount,
            self.rootfs,
            self.overlay_upper,
            self.overlay_work,
        ]
    }
}

impl MountPoints {
    /// The directories below the sandbox root `prefix_root`.
    pub fn for_prefix(prefix_root: &str) -> (mounts: MountPoints)
        ensures
            mounts.deep_view() == mount_points_of(prefix_root@),
    {
        MountPoints {
            system_mount: join(prefix_root, ".mounts/system"),
            vendor_mount: join(prefix_root, ".mounts/vendor"),
            rootfs: join(prefix_root, "rootfs"),
            overlay_upper: join(prefix_root, ".overlay/upper"),
            overlay_work: join(prefix_root, ".overlay/work"),
        }
    }

    /// The five directories, in the order in which they are created.
    pub fn all(&self) -> (dirs: Vec<String>)
        ensures
            dirs.deep_view() == self.deep_view().all(),
    {
        let mut dirs: Vec<String> = Vec::new();
        dirs.push(self.system_mount.clone());
        dirs.push(self.vendor_mount.clone());
        dirs.push(self.rootfs.clone());
        dirs.push(self.overlay_upper.clone());
        dirs.push(self.overlay_work.clone());
        assert(dirs.deep_view() =~= self.deep_view().all());
        dirs
    }

    /// Asks for all five directories. Creating a directory that is there
    /// already changes nothing, so the request can be repeated.
    pub fn ensure_dirs(&self) -> (effect: Effect)
        ensures
            effect.deep_view() == EffectModel::CreateDirs(self.deep_view().all()),
    {
        Effect::CreateDirs(self.all())
    }
}

/// Two sandbox roots that name the same directory share all five paths, and
/// two that do not share none: no path of one sandbox is a path of another.
pub proof fn law_roots_share_no_path(a: Seq<char>, b: Seq<char>, i: int, j: int)
    requires
        0 <= i < 5,
        0 <= j < 5,
    ensures
        mount_points_of(a).all()[i] == mount_points_of(b).all()[j] <==> i == j && as_directory(a)
            == as_directory(b),
{
    reveal_strlit(".mounts/system");
    reveal_strlit(".mounts/vendor");
    reveal_strlit("rootfs");
    reveal_strlit(".overlay/upper");
    reveal_strlit(".overlay/work");
    let rels = seq![
        ".mounts/system"@,
        ".mounts/vendor"@,
        "rootfs"@,
        ".overlay/upper"@,
        ".overlay/work"@,
    ];
    let x = mount_points_of(a).all()[i];
    let y = mount_points_of(b).all()[j];
    let da = as_directory(a);
    let db = as_directory(b);
    assert(x == joined_path(a, rels[i]));
    assert(y == joined_path(b, rels[j]));
    lemma_join_relative(a, rels[i]);
    lemma_join_relative(b, rels[j]);
    if x == y {
        // Neither directory prefix holds text behind its last separator, and
        // every relative path ends with a name of its own.
        assert(x.len() == da.len() + rels[i].len());
        assert(y.len() == db.len() + rels[j].len());
        assert(x.last() == rels[i].last());
        assert(y.last() == rels[j].last());
        assert(x[x.len() - 2] == rels[i][rels[i].len() - 2]);
        assert(y[y.len() - 2] == rels[j][rels[j].len() - 2]);
        assert(i == j);
        assert(da =~= x.subrange(0, da.len() as int));
        assert(db =~= y.subrange(0, db.len() as int));
    }
}

} // verus!
