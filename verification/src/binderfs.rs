//! A private binder filesystem for the sandbox, and the devices in it.

use vstd::prelude::*;
use vstd::string::StringExecFns;
use vstd::string::is_ascii_spec_bytes;
use vstd::string::StringSliceAdditionalSpecFns;

use crate::error::ErrorKind;
use crate::error::ErrorModel;
use crate::error::SandboxError;
use crate::host::Effect;
use crate::host::EffectModel;
use crate::host::MountFlags;
use crate::host::MountRequest;
use crate::host::MountRequestModel;
use crate::host::Next;
use crate::host::NextModel;
use crate::host::Outcome;
use crate::host::OutcomeModel;
use crate::host::Step;
use crate::host::StepModel;
use crate::path::join;
use crate::path::joined_path;
use crate::plan::may;
use crate::plan::must;
use crate::plan::required;
use crate::plan::tolerated;
use crate::tools::no_texts;
use crate::tools::push_text;

verus! {

/// The request code of the ioctl that adds a device to a binder filesystem.
pub const BINDER_CTL_ADD: u32 = 0x4020_6201;

/// The longest device name, in bytes. The name field holds one byte more, so
/// that a name always ends with a zero byte.
pub const BINDERFS_MAX_NAME: usize = 255;

/// The argument of the ioctl that adds a device: a name field of 256 bytes and
/// two 32-bit fields that the kernel fills with the device numbers.
#[derive(Debug, Clone, PartialEq, Eq)]
pub struct BinderfsDevice {
    pub name: [u8; 256],
    pub major: u32,
    pub minor: u32,
}

/// What a [`BinderfsDevice`] is, as plain values.
pub struct BinderfsDeviceModel {
    pub name: Seq<u8>,
    pub major: u32,
    pub minor: u32,
}

impl DeepView for BinderfsDevice {
    type V = BinderfsDeviceModel;

    open spec fn deep_view(&self) -> BinderfsDeviceModel {
        BinderfsDeviceModel { name: self.name@, major: self.major, minor: self.minor }
    }
}

/// `bytes` in a field of 256 bytes, followed by zero bytes to its end.
pub open spec fn name_field(bytes: Seq<u8>) -> Seq<u8> {
    Seq::new(256, |i: int| if i < bytes.len() { bytes[i] } else { 0u8 })
}

/// The text of the failure for a name that does not fit the field.
pub open spec fn name_too_long(name: Seq<char>) -> ErrorModel {
    ErrorModel { kind: ErrorKind::Binderfs, message: "Device name too long: "@ + name }
}

impl BinderfsDevice {
    /// The ioctl argument that asks for a device called `name`. A name of more
    /// than 255 bytes is refused.
    pub fn new(name: &str) -> (r: Result<BinderfsDevice, SandboxError>)
        ensures
            r is Ok <==> name.spec_bytes().len() <= 255,
            r matches Ok(device) ==> device.deep_view() == (BinderfsDeviceModel {
                name: name_field(name.spec_bytes()),
                major: 0,
                minor: 0,
            }),
            r matches Err(e) ==> e.deep_view() == name_too_long(name@),
    {
        let bytes = name.as_bytes();
        if bytes.len() > BINDERFS_MAX_NAME {
            let mut message = String::from_str("Device name too long: ");
            message.append(name);
            return Err(SandboxError::new(ErrorKind::Binderfs, message));
        }
        let mut field: [u8; 256] = [0u8; 256];
        let mut i: usize = 0;
        while i < bytes.len()
            invariant
                i <= bytes.len() <= 255,
                forall|j: int| 0 <= j < i ==> field@[j] == bytes@[j],
                forall|j: int| i <= j < 256 ==> field@[j] == 0u8,
            decreases bytes.len() - i,
        {
            field[i] = bytes[i];
            i += 1;
        }
        assert(field@ =~= name_field(name.spec_bytes()));
        Ok(BinderfsDevice { name: field, major: 0, minor: 0 })
    }
}

/// The devices of a binder filesystem, in the order in which they are made.
#[derive(Debug, Clone, Copy, PartialEq, Eq, Structural)]
pub enum BinderDevice {
    /// The device for applications and the framework.
    Binder,
    /// The device for hardware services.
    HwBinder,
    /// The device for vendor services.
    VndBinder,
}

impl BinderDevice {
    /// The name of the device node.
    pub open spec fn name_text(self) -> Seq<char> {
        match self {
            BinderDevice::Binder => "binder"@,
            BinderDevice::HwBinder => "hwbinder"@,
            BinderDevice::VndBinder => "vndbinder"@,
        }
    }

    /// The bytes of the name of the device node.
    pub open spec fn name_bytes(self) -> Seq<u8> {
        match self {
            BinderDevice::Binder => "binder".spec_bytes(),
            BinderDevice::HwBinder => "hwbinder".spec_bytes(),
            BinderDevice::VndBinder => "vndbinder".spec_bytes(),
        }
    }

    /// The device that is made next; the vendor device is the last.
    pub open spec fn following(self) -> Option<BinderDevice> {
        match self {
            BinderDevice::Binder => Some(BinderDevice::HwBinder),
            BinderDevice::HwBinder => Some(BinderDevice::VndBinder),
            BinderDevice::VndBinder => None,
        }
    }

    /// The argument of the ioctl that asks for this device.
    pub open spec fn request(self) -> BinderfsDeviceModel {
        BinderfsDeviceModel { name: name_field(self.name_bytes()), major: 0, minor: 0 }
    }

    /// The name of the device node.
    pub fn name(self) -> (name: &'static str)
        ensures
            name@ == self.name_text(),
            name.spec_bytes() == self.name_bytes(),
    {
        match self {
            BinderDevice::Binder => "binder",
            BinderDevice::HwBinder => "hwbinder",
            BinderDevice::VndBinder => "vndbinder",
        }
    }

    /// The device that is made next.
    pub fn next(self) -> (r: Option<BinderDevice>)
        ensures
            r == self.following(),
    {
        match self {
            BinderDevice::Binder => Some(BinderDevice::HwBinder),
            BinderDevice::HwBinder => Some(BinderDevice::VndBinder),
            BinderDevice::VndBinder => None,
        }
    }
}

/// The name of each device fits the name field.
pub proof fn lemma_device_names_fit(device: BinderDevice)
    ensures
        device.name_bytes().len() <= 255,
{
    broadcast use is_ascii_spec_bytes;

    reveal_strlit("binder");
    reveal_strlit("hwbinder");
    reveal_strlit("vndbinder");
    assert(vstd::string::is_ascii("binder"));
    assert(vstd::string::is_ascii("hwbinder"));
    assert(vstd::string::is_ascii("vndbinder"));
}

/// The effect that a binder filesystem is waiting for.
#[derive(Debug, Clone, Copy, PartialEq, Eq, Structural)]
pub enum BinderStage {
    /// No operation is under way.
    Idle,
    /// The directory of the mount point is being created.
    CreatingMountPoint,
    /// The filesystem is being mounted.
    Mounting,
    /// The control device is being opened.
    OpeningControl,
    /// A device is being made.
    Adding(BinderDevice),
    /// Provisioning has failed behind the mount, and the filesystem is being
    /// unmounted again before the failure is reported.
    RollingBack,
    /// The filesystem is being unmounted.
    Unmounting,
}

/// A binder filesystem of a sandbox: where it is mounted, whether it is, and
/// whether its devices were made.
#[derive(Debug)]
pub struct BinderfsInstance {
    mount_point: String,
    mounted: bool,
    provisioned: bool,
    stage: BinderStage,
    carried: String,
}

/// A [`BinderfsInstance`] as plain values.
pub struct BinderfsModel {
    /// Where the filesystem is mounted.
    pub mount_point: Seq<char>,
    /// Whether it is mounted.
    pub mounted: bool,
    /// Whether it is mounted and all three devices were made.
    pub provisioned: bool,
    /// The effect that is waited for.
    pub stage: BinderStage,
    /// The failure that is reported once the filesystem was unmounted again.
    pub carried: Seq<char>,
}

impl DeepView for BinderfsInstance {
    type V = BinderfsModel;

    closed spec fn deep_view(&self) -> BinderfsModel {
        BinderfsModel {
            mount_point: self.mount_point@,
            mounted: self.mounted,
            provisioned: self.provisioned,
            stage: self.stage,
            carried: self.carried@,
        }
    }
}

/// The mount of a binder filesystem at `target`: without device files of
/// other kinds, without programs to run and without set-uid.
pub open spec fn binder_request(target: Seq<char>) -> MountRequestModel {
    MountRequestModel {
        source: Some("binder"@),
        target,
        fstype: Some("binder"@),
        flags: MountFlags {
            bind: false,
            recursive: false,
            no_dev: true,
            no_exec: true,
            no_suid: true,
        },
    }
}

/// A failure of the binder filesystem.
pub open spec fn binder_failure(message: Seq<char>) -> NextModel {
    NextModel::Failed(ErrorModel { kind: ErrorKind::Binderfs, message })
}

/// Where the binder filesystem of a sandbox is mounted.
pub open spec fn binderfs_dir(rootfs: Seq<char>) -> Seq<char> {
    joined_path(rootfs, "dev/binderfs"@)
}

/// The two steps that make the device `name` reachable at its usual place:
/// whatever is there is removed, which may fail, and a link to the device
/// in the binder filesystem is put in its place, which may not.
pub open spec fn link_steps(dev_path: Seq<char>, name: Seq<char>) -> Seq<StepModel> {
    let link = joined_path(dev_path, name);
    seq![
        may(
            EffectModel::RemoveFile(link),
            ErrorKind::Binderfs,
            "Failed to remove what is in the place of "@ + name,
        ),
        must(
            EffectModel::Symlink { target: joined_path("binderfs"@, name), link },
            ErrorKind::Binderfs,
            "Failed to create symlink for "@ + name,
        ),
    ]
}

/// The links for all three devices, in the order of the devices.
pub open spec fn compatibility_links(rootfs: Seq<char>) -> Seq<StepModel> {
    let dev_path = joined_path(rootfs, "dev"@);
    link_steps(dev_path, "binder"@) + link_steps(dev_path, "hwbinder"@) + link_steps(
        dev_path,
        "vndbinder"@,
    )
}

impl BinderfsModel {
    /// A filesystem for a mount point, with nothing mounted.
    pub open spec fn fresh(mount_point: Seq<char>) -> BinderfsModel {
        BinderfsModel {
            mount_point,
            mounted: false,
            provisioned: false,
            stage: BinderStage::Idle,
            carried: Seq::empty(),
        }
    }

    /// The same filesystem, waiting for another effect.
    pub open spec fn at(self, stage: BinderStage) -> BinderfsModel {
        BinderfsModel { stage, ..self }
    }

    /// Where the control device of the filesystem is.
    pub open spec fn control_path(self) -> Seq<char> {
        joined_path(self.mount_point, "binder-control"@)
    }

    /// The devices are made only on a mounted filesystem, and no operation
    /// but an unmount is under way on a filesystem whose devices were made.
    pub open spec fn consistent(self) -> bool {
        self.provisioned ==> self.mounted && (self.stage is Idle || self.stage is Unmounting)
    }

    /// Provisioning begins with the directory of the mount point.
    pub open spec fn mount(self) -> (BinderfsModel, NextModel) {
        (
            BinderfsModel { provisioned: false, stage: BinderStage::CreatingMountPoint, ..self },
            NextModel::Perform(EffectModel::CreateDirs(seq![self.mount_point])),
        )
    }

    /// Provisioning has failed. A filesystem that this provisioning has
    /// mounted is unmounted again before the failure is reported; where
    /// nothing is mounted the failure is reported at once.
    pub open spec fn roll_back(self, message: Seq<char>) -> (BinderfsModel, NextModel) {
        if self.mounted {
            (
                BinderfsModel {
                    provisioned: false,
                    carried: message,
                    stage: BinderStage::RollingBack,
                    ..self
                },
                NextModel::Perform(EffectModel::Unmount(self.mount_point)),
            )
        } else {
            (
                BinderfsModel { provisioned: false, stage: BinderStage::Idle, ..self },
                binder_failure(message),
            )
        }
    }

    /// The kernel is asked for one device.
    pub open spec fn add(self, device: BinderDevice) -> (BinderfsModel, NextModel) {
        if device.name_bytes().len() <= 255 {
            (
                self.at(BinderStage::Adding(device)),
                NextModel::Perform(EffectModel::AddBinderDevice(device.request())),
            )
        } else {
            self.roll_back(name_too_long(device.name_text()).message)
        }
    }

    /// The devices are made one after another, the first of them first.
    pub open spec fn create_devices(self) -> (BinderfsModel, NextModel) {
        self.add(BinderDevice::Binder)
    }

    /// The move that the filesystem makes on an outcome. Whatever cannot be
    /// done ends provisioning; a device that cannot be made ends it before
    /// the next device is asked for. What fails behind the mount is reported
    /// only when the filesystem was unmounted again, or could not be.
    pub open spec fn resume(self, outcome: OutcomeModel) -> (BinderfsModel, NextModel) {
        match self.stage {
            BinderStage::Idle => (self, NextModel::Done),
            BinderStage::CreatingMountPoint => if outcome is Done {
                (
                    self.at(BinderStage::Mounting),
                    NextModel::Perform(EffectModel::Mount(binder_request(self.mount_point))),
                )
            } else {
                (
                    self.at(BinderStage::Idle),
                    binder_failure("Failed to create binderfs mount point: "@ + self.mount_point),
                )
            },
            BinderStage::Mounting => if outcome is Done {
                (
                    BinderfsModel { mounted: true, stage: BinderStage::OpeningControl, ..self },
                    NextModel::Perform(EffectModel::OpenControl(self.control_path())),
                )
            } else {
                (
                    self.at(BinderStage::Idle),
                    binder_failure("Failed to mount binderfs at "@ + self.mount_point),
                )
            },
            BinderStage::OpeningControl => if outcome is Done {
                self.create_devices()
            } else {
                self.roll_back("Failed to open "@ + self.control_path())
            },
            BinderStage::Adding(device) => if outcome is Done {
                match device.following() {
                    Some(next) => self.add(next),
                    None => (
                        BinderfsModel {
                            provisioned: self.mounted,
                            stage: BinderStage::Idle,
                            ..self
                        },
                        NextModel::Done,
                    ),
                }
            } else {
                self.roll_back(
                    "Failed to create device "@ + device.name_text() + ": "@ + outcome.reason(),
                )
            },
            BinderStage::RollingBack => (
                BinderfsModel {
                    mounted: self.mounted && !(outcome is Done),
                    carried: Seq::empty(),
                    stage: BinderStage::Idle,
                    ..self
                },
                binder_failure(self.carried),
            ),
            BinderStage::Unmounting => if outcome is Done {
                (
                    BinderfsModel {
                        mounted: false,
                        provisioned: false,
                        stage: BinderStage::Idle,
                        ..self
                    },
                    NextModel::Done,
                )
            } else {
                (
                    self.at(BinderStage::Idle),
                    binder_failure("Failed to unmount binderfs at "@ + self.mount_point),
                )
            },
        }
    }

    /// A filesystem that is not mounted is left alone; a mounted one is
    /// unmounted.
    pub open spec fn unmount(self) -> (BinderfsModel, NextModel) {
        if self.mounted {
            (
                self.at(BinderStage::Unmounting),
                NextModel::Perform(EffectModel::Unmount(self.mount_point)),
            )
        } else {
            (self.at(BinderStage::Idle), NextModel::Done)
        }
    }

    /// The links that make the devices reachable at their usual places in
    /// the sandbox at `rootfs`. There are none to make unless this is the
    /// binder filesystem of that sandbox and its devices were made.
    pub open spec fn links(self, rootfs: Seq<char>) -> Option<Seq<StepModel>> {
        if self.provisioned && self.mount_point == binderfs_dir(rootfs) {
            Some(compatibility_links(rootfs))
        } else {
            None
        }
    }
}

fn binder_failed(message: String) -> (next: Next)
    ensures
        next.deep_view() == binder_failure(message@),
{
    Next::Failed(SandboxError::new(ErrorKind::Binderfs, message))
}

fn text_about(what: &str, subject: &str) -> (message: String)
    ensures
        message@ == what@ + subject@,
{
    let mut message = String::from_str(what);
    message.append(subject);
    message
}

fn push_link_steps(plan: &mut Vec<Step>, dev_path: &str, name: &str)
    ensures
        final(plan).deep_view() == old(plan).deep_view() + link_steps(dev_path@, name@),
{
    let link = join(dev_path, name);
    let target = join("binderfs", name);
    let removal = text_about("Failed to remove what is in the place of ", name);
    let linking = text_about("Failed to create symlink for ", name);
    plan.push(tolerated(Effect::RemoveFile(link.clone()), ErrorKind::Binderfs, removal.as_str()));
    plan.push(
        required(Effect::Symlink { target, link }, ErrorKind::Binderfs, linking.as_str()),
    );
    assert(plan.deep_view() =~= old(plan).deep_view() + link_steps(dev_path@, name@));
}

impl BinderfsInstance {
    /// A binder filesystem for the mount point `mount_point`. Nothing is
    /// mounted yet.
    pub fn new(mount_point: &str) -> (instance: BinderfsInstance)
        ensures
            instance.deep_view() == BinderfsModel::fresh(mount_point@),
    {
        BinderfsInstance {
            mount_point: String::from_str(mount_point),
            mounted: false,
            provisioned: false,
            stage: BinderStage::Idle,
            carried: String::new(),
        }
    }

    /// Whether the filesystem is mounted.
    pub fn is_mounted(&self) -> (r: bool)
        ensures
            r == self.deep_view().mounted,
    {
        self.mounted
    }

    /// Whether the filesystem is mounted and its three devices were made.
    pub fn is_provisioned(&self) -> (r: bool)
        ensures
            r == self.deep_view().provisioned,
    {
        self.provisioned
    }

    /// Where the filesystem is mounted.
    pub fn mount_point(&self) -> (r: &str)
        ensures
            r@ == self.deep_view().mount_point,
    {
        self.mount_point.as_str()
    }

    /// Where the device `device_name` is.
    pub fn device_path(&self, device_name: &str) -> (path: String)
        ensures
            path@ == joined_path(self.deep_view().mount_point, device_name@),
    {
        join(self.mount_point.as_str(), device_name)
    }

    /// The look that tells whether the device `device_name` is there.
    pub fn device_probe(&self, device_name: &str) -> (effect: Effect)
        ensures
            effect.deep_view() == EffectModel::Stat(
                seq![joined_path(self.deep_view().mount_point, device_name@)],
            ),
    {
        let mut paths = no_texts();
        let path = self.device_path(device_name);
        push_text(&mut paths, path.as_str());
        assert(paths.deep_view() =~= seq![path@]);
        Effect::Stat(paths)
    }

    /// Tells from the outcome of [`BinderfsInstance::device_probe`] whether
    /// the device is there.
    pub fn device_exists(&self, found: &Outcome) -> (r: bool)
        ensures
            r == found.deep_view().found(0),
    {
        found.found(0)
    }

    /// Plans the links that make the devices reachable at their usual places
    /// in the sandbox at `rootfs`. The plan is handed out only for the binder
    /// filesystem of that sandbox, and only once its devices were made.
    pub fn links(&self, rootfs: &str) -> (r: Option<Vec<Step>>)
        ensures
            r.deep_view() == self.deep_view().links(rootfs@),
    {
        let expected = join(rootfs, "dev/binderfs");
        if self.provisioned && self.mount_point == expected {
            let dev_path = join(rootfs, "dev");
            let mut plan: Vec<Step> = Vec::new();
            assert(plan.deep_view() =~= Seq::<StepModel>::empty());
            push_link_steps(&mut plan, dev_path.as_str(), "binder");
            push_link_steps(&mut plan, dev_path.as_str(), "hwbinder");
            push_link_steps(&mut plan, dev_path.as_str(), "vndbinder");
            assert(plan.deep_view() =~= compatibility_links(rootfs@));
            Some(plan)
        } else {
            None
        }
    }

    /// Provisions the filesystem: makes the directory of the mount point,
    /// mounts the filesystem there, and makes its three devices. Where a
    /// step behind the mount fails, the filesystem is unmounted again before
    /// the failure is reported.
    pub fn mount(&mut self) -> (next: Next)
        ensures
            (final(self).deep_view(), next.deep_view()) == old(self).deep_view().mount(),
    {
        let mut dirs = no_texts();
        push_text(&mut dirs, self.mount_point.as_str());
        assert(dirs.deep_view() =~= seq![self.mount_point@]);
        self.provisioned = false;
        self.stage = BinderStage::CreatingMountPoint;
        Next::Perform(Effect::CreateDirs(dirs))
    }

    fn roll_back(&mut self, message: String) -> (next: Next)
        ensures
            (final(self).deep_view(), next.deep_view()) == old(self).deep_view().roll_back(
                message@,
            ),
    {
        self.provisioned = false;
        if self.mounted {
            self.carried = message;
            self.stage = BinderStage::RollingBack;
            Next::Perform(Effect::Unmount(self.mount_point.clone()))
        } else {
            self.stage = BinderStage::Idle;
            binder_failed(message)
        }
    }

    fn add(&mut self, device: BinderDevice) -> (next: Next)
        ensures
            (final(self).deep_view(), next.deep_view()) == old(self).deep_view().add(device),
    {
        match BinderfsDevice::new(device.name()) {
            Ok(request) => {
                self.stage = BinderStage::Adding(device);
                Next::Perform(Effect::AddBinderDevice(request))
            },
            Err(error) => self.roll_back(error.message),
        }
    }

    /// Makes the devices, one after another.
    fn create_devices(&mut self) -> (next: Next)
        ensures
            (final(self).deep_view(), next.deep_view()) == old(self).deep_view().create_devices(),
    {
        self.add(BinderDevice::Binder)
    }

    /// Unmounts the filesystem if it is mounted. On a filesystem that is not
    /// mounted this does nothing and succeeds.
    pub fn unmount(&mut self) -> (next: Next)
        ensures
            (final(self).deep_view(), next.deep_view()) == old(self).deep_view().unmount(),
    {
        if self.mounted {
            self.stage = BinderStage::Unmounting;
            Next::Perform(Effect::Unmount(self.mount_point.clone()))
        } else {
            self.stage = BinderStage::Idle;
            Next::Done
        }
    }

    /// Carries the operation under way on with the outcome of the effect
    /// that it asked for.
    pub fn resume(&mut self, outcome: Outcome) -> (next: Next)
        ensures
            (final(self).deep_view(), next.deep_view()) == old(self).deep_view().resume(
                outcome.deep_view(),
            ),
    {
        match self.stage {
            BinderStage::Idle => Next::Done,
            BinderStage::CreatingMountPoint => {
                if outcome.is_done() {
                    self.stage = BinderStage::Mounting;
                    Next::Perform(
                        Effect::Mount(
                            MountRequest {
                                source: Some(String::from_str("binder")),
                                target: self.mount_point.clone(),
                                fstype: Some(String::from_str("binder")),
                                flags: MountFlags {
                                    bind: false,
                                    recursive: false,
                                    no_dev: true,
                                    no_exec: true,
                                    no_suid: true,
                                },
                            },
                        ),
                    )
                } else {
                    self.stage = BinderStage::Idle;
                    binder_failed(
                        text_about(
                            "Failed to create binderfs mount point: ",
                            self.mount_point.as_str(),
                        ),
                    )
                }
            },
            BinderStage::Mounting => {
                if outcome.is_done() {
                    self.mounted = true;
                    self.stage = BinderStage::OpeningControl;
                    Next::Perform(
                        Effect::OpenControl(join(self.mount_point.as_str(), "binder-control")),
                    )
                } else {
                    self.stage = BinderStage::Idle;
                    binder_failed(
                        text_about("Failed to mount binderfs at ", self.mount_point.as_str()),
                    )
                }
            },
            BinderStage::OpeningControl => {
                if outcome.is_done() {
                    self.create_devices()
                } else {
                    let control = join(self.mount_point.as_str(), "binder-control");
                    self.roll_back(text_about("Failed to open ", control.as_str()))
                }
            },
            BinderStage::Adding(device) => {
                if outcome.is_done() {
                    match device.next() {
                        Some(following) => self.add(following),
                        None => {
                            self.provisioned = self.mounted;
                            self.stage = BinderStage::Idle;
                            Next::Done
                        },
                    }
                } else {
                    let mut message = String::from_str("Failed to create device ");
                    message.append(device.name());
                    message.append(": ");
                    let reason = outcome.reason();
                    message.append(reason.as_str());
                    self.roll_back(message)
                }
            },
            BinderStage::RollingBack => {
                let message = self.carried.clone();
                self.carried = String::new();
                if outcome.is_done() {
                    self.mounted = false;
                }
                self.stage = BinderStage::Idle;
                binder_failed(message)
            },
            BinderStage::Unmounting => {
                if outcome.is_done() {
                    self.mounted = false;
                    self.provisioned = false;
                    self.stage = BinderStage::Idle;
                    Next::Done
                } else {
                    self.stage = BinderStage::Idle;
                    binder_failed(
                        text_about("Failed to unmount binderfs at ", self.mount_point.as_str()),
                    )
                }
            },
        }
    }
}

/// The binder filesystem of the sandbox whose root filesystem is at `rootfs`,
/// to be provisioned with [`BinderfsInstance::mount`]. Once it is, its
/// [`BinderfsInstance::links`] for the same sandbox make the devices reachable
/// at their usual places.
pub fn setup_binderfs_in_sandbox(rootfs: &str) -> (instance: BinderfsInstance)
    ensures
        instance.deep_view() == BinderfsModel::fresh(binderfs_dir(rootfs@)),
{
    let binderfs_path = join(rootfs, "dev/binderfs");
    BinderfsInstance::new(binderfs_path.as_str())
}

/// The filesystem and what comes next once the host has reported `outcomes`
/// one after another.
pub open spec fn run(start: (BinderfsModel, NextModel), outcomes: Seq<OutcomeModel>) -> (
    BinderfsModel,
    NextModel,
)
    decreases outcomes.len(),
{
    if outcomes.len() == 0 || start.1.ended() {
        start
    } else {
        run(start.0.resume(outcomes[0]), outcomes.drop_first())
    }
}

/// The devices that the kernel was asked for on the way, in order.
pub open spec fn requested(start: (BinderfsModel, NextModel), outcomes: Seq<OutcomeModel>) -> Seq<
    BinderfsDeviceModel,
>
    decreases outcomes.len(),
{
    if outcomes.len() == 0 || start.1.ended() {
        Seq::empty()
    } else {
        let rest = requested(start.0.resume(outcomes[0]), outcomes.drop_first());
        match start.1 {
            NextModel::Perform(EffectModel::AddBinderDevice(device)) => seq![device] + rest,
            _ => rest,
        }
    }
}

/// The three devices, in the order in which they are made.
pub open spec fn device_order() -> Seq<BinderfsDeviceModel> {
    seq![
        BinderDevice::Binder.request(),
        BinderDevice::HwBinder.request(),
        BinderDevice::VndBinder.request(),
    ]
}

/// Behind a failure no device is asked for: the one thing that may follow
/// is the unmount.
proof fn lemma_nothing_behind_failure(start: (BinderfsModel, NextModel), outcomes: Seq<OutcomeModel>)
    requires
        start.1.ended() || start.0.stage is RollingBack,
        start.1 is Perform ==> start.1->Perform_0 is Unmount,
    ensures
        requested(start, outcomes) == Seq::<BinderfsDeviceModel>::empty(),
        outcomes.len() > 0 ==> run(start, outcomes).1.ended(),
{
    let none = Seq::<BinderfsDeviceModel>::empty();
    if outcomes.len() > 0 && !start.1.ended() {
        let step = start.0.resume(outcomes[0]);
        assert(step.1.ended());
        assert(requested(step, outcomes.drop_first()) =~= none);
        assert(requested(start, outcomes) =~= none);
        assert(run(step, outcomes.drop_first()) == step);
    } else {
        assert(requested(start, outcomes) =~= none);
    }
}

/// Whatever the host reports, the devices that the kernel is asked for are
/// the first of the three in their order: never more than three, never one
/// out of turn, and never one behind a device that could not be made.
pub proof fn law_devices_in_order(instance: BinderfsModel, outcomes: Seq<OutcomeModel>)
    ensures
        requested(instance.create_devices(), outcomes).len() <= 3,
        requested(instance.create_devices(), outcomes) == device_order().take(
            requested(instance.create_devices(), outcomes).len() as int,
        ),
        forall|i: int|
            0 <= i < outcomes.len() && i < 3 && !(outcomes[i] is Done) ==> requested(
                instance.create_devices(),
                outcomes,
            ).len() <= i + 1,
{
    lemma_device_names_fit(BinderDevice::Binder);
    lemma_device_names_fit(BinderDevice::HwBinder);
    lemma_device_names_fit(BinderDevice::VndBinder);
    let none = Seq::<BinderfsDeviceModel>::empty();
    let s0 = instance.create_devices();
    let all = requested(s0, outcomes);
    if outcomes.len() == 0 {
        assert(all =~= device_order().take(0));
    } else {
        let o1 = outcomes.drop_first();
        let s1 = s0.0.resume(outcomes[0]);
        assert(all =~= seq![BinderDevice::Binder.request()] + requested(s1, o1));
        if !(outcomes[0] is Done) || o1.len() == 0 {
            if !(outcomes[0] is Done) {
                lemma_nothing_behind_failure(s1, o1);
            }
            assert(requested(s1, o1) =~= none);
            assert(all =~= device_order().take(1));
        } else {
            let o2 = o1.drop_first();
            let s2 = s1.0.resume(o1[0]);
            assert(o1[0] == outcomes[1]);
            assert(requested(s1, o1) =~= seq![BinderDevice::HwBinder.request()] + requested(
                s2,
                o2,
            ));
            if !(o1[0] is Done) || o2.len() == 0 {
                if !(o1[0] is Done) {
                    lemma_nothing_behind_failure(s2, o2);
                }
                assert(requested(s2, o2) =~= none);
                assert(all =~= device_order().take(2));
            } else {
                let o3 = o2.drop_first();
                let s3 = s2.0.resume(o2[0]);
                assert(o2[0] == outcomes[2]);
                lemma_nothing_behind_failure(s3, o3);
                assert(requested(s2, o2) =~= seq![BinderDevice::VndBinder.request()]);
                assert(all =~= device_order().take(3));
            }
        }
    }
}

/// Once the control device is open, provisioning asks for exactly three
/// devices, in the order binder, hwbinder, vndbinder, and ends well when
/// all three were made. A mounted filesystem is then provisioned.
pub proof fn law_three_devices_in_order(
    instance: BinderfsModel,
    first: OutcomeModel,
    second: OutcomeModel,
    third: OutcomeModel,
)
    requires
        first is Done,
        second is Done,
        third is Done,
    ensures
        run(instance.create_devices(), seq![first, second, third]).1 is Done,
        run(instance.create_devices(), seq![first, second, third]).0.provisioned
            == instance.mounted,
        requested(instance.create_devices(), seq![first, second, third]) == device_order(),
{
    lemma_device_names_fit(BinderDevice::Binder);
    lemma_device_names_fit(BinderDevice::HwBinder);
    lemma_device_names_fit(BinderDevice::VndBinder);
    let outcomes = seq![first, second, third];
    let o1 = outcomes.drop_first();
    let o2 = o1.drop_first();
    let o3 = o2.drop_first();
    assert(outcomes[0] == first && o1[0] == second && o2[0] == third && o3.len() == 0);
    let s0 = instance.create_devices();
    let s1 = s0.0.resume(first);
    let s2 = s1.0.resume(second);
    let s3 = s2.0.resume(third);
    assert(run(s0, outcomes) == run(s1, o1));
    assert(run(s1, o1) == run(s2, o2));
    assert(run(s2, o2) == run(s3, o3));
    assert(requested(s3, o3) =~= Seq::<BinderfsDeviceModel>::empty());
    assert(requested(s2, o2) =~= seq![BinderDevice::VndBinder.request()]);
    assert(requested(s1, o1) =~= seq![
        BinderDevice::HwBinder.request(),
        BinderDevice::VndBinder.request(),
    ]);
    assert(requested(s0, outcomes) =~= device_order());
}

/// A device that cannot be made ends provisioning: when the second device
/// fails, the kernel was asked for the first two devices and is never asked
/// for the third. The filesystem is unmounted again before the failure is
/// reported, and the failure names the device and carries the host's reason.
pub proof fn law_failed_device_stops_provisioning(
    instance: BinderfsModel,
    first: OutcomeModel,
    second: OutcomeModel,
    unmounted: OutcomeModel,
)
    requires
        instance.mounted,
        first is Done,
        !(second is Done),
    ensures
        ({
            let outcomes = seq![first, second, unmounted];
            let end = run(instance.create_devices(), outcomes);
            &&& end.1 == binder_failure(
                "Failed to create device "@ + "hwbinder"@ + ": "@ + second.reason(),
            )
            &&& end.0.mounted == !(unmounted is Done)
            &&& !end.0.provisioned
            &&& requested(instance.create_devices(), outcomes) == device_order().take(2)
            &&& run(instance.create_devices(), seq![first, second]).1 == NextModel::Perform(
                EffectModel::Unmount(instance.mount_point),
            )
        }),
{
    lemma_device_names_fit(BinderDevice::Binder);
    lemma_device_names_fit(BinderDevice::HwBinder);
    let outcomes = seq![first, second, unmounted];
    let o1 = outcomes.drop_first();
    let o2 = o1.drop_first();
    let o3 = o2.drop_first();
    assert(outcomes[0] == first && o1[0] == second && o2[0] == unmounted && o3.len() == 0);
    let s0 = instance.create_devices();
    let s1 = s0.0.resume(first);
    let s2 = s1.0.resume(second);
    let s3 = s2.0.resume(unmounted);
    assert(run(s0, outcomes) == run(s1, o1));
    assert(run(s1, o1) == run(s2, o2));
    assert(run(s2, o2) == run(s3, o3));
    assert(run(s3, o3) == s3);
    assert(requested(s3, o3) =~= Seq::<BinderfsDeviceModel>::empty());
    assert(requested(s2, o2) =~= Seq::<BinderfsDeviceModel>::empty());
    assert(requested(s1, o1) =~= seq![BinderDevice::HwBinder.request()]);
    assert(requested(s0, outcomes) =~= device_order().take(2));
    let short = seq![first, second];
    let p1 = short.drop_first();
    let p2 = p1.drop_first();
    assert(short[0] == first && p1[0] == second && p2.len() == 0);
    assert(run(s0, short) == run(s1, p1));
    assert(run(s1, p1) == run(s2, p2));
    assert(run(s2, p2) == s2);
}

/// Provisioning that fails behind the mount never reports its failure with
/// the filesystem left mounted, unless the unmount itself failed: whether
/// the control device could not be opened or a device could not be made, the
/// next effect is the unmount, and the failure is reported behind it.
pub proof fn law_failed_provisioning_is_rolled_back(
    instance: BinderfsModel,
    failing: OutcomeModel,
    unmounted: OutcomeModel,
)
    requires
        instance.mounted,
        instance.stage is OpeningControl || instance.stage is Adding,
        !(failing is Done),
    ensures
        instance.resume(failing).1 == NextModel::Perform(
            EffectModel::Unmount(instance.mount_point),
        ),
        instance.resume(failing).0.resume(unmounted).1 is Failed,
        instance.resume(failing).0.resume(unmounted).1->Failed_0.kind == ErrorKind::Binderfs,
        instance.resume(failing).0.resume(unmounted).0.mounted == !(unmounted is Done),
        !instance.resume(failing).0.resume(unmounted).0.provisioned,
{
}

/// The links of a sandbox are handed out for a mounted filesystem whose
/// three devices were made, and for no other: not before provisioning, and
/// not after a provisioning that failed. This holds of a fresh filesystem and
/// is kept by every operation and every move.
pub proof fn law_links_follow_provisioning(
    instance: BinderfsModel,
    rootfs: Seq<char>,
    outcome: OutcomeModel,
)
    requires
        instance.consistent(),
    ensures
        BinderfsModel::fresh(binderfs_dir(rootfs)).consistent(),
        BinderfsModel::fresh(binderfs_dir(rootfs)).links(rootfs) is None,
        instance.mount().0.consistent(),
        instance.unmount().0.consistent(),
        instance.resume(outcome).0.consistent(),
        instance.links(rootfs) is Some ==> instance.mounted,
        instance.mount().0.links(rootfs) is None,
        instance.resume(outcome).1 is Failed && !(instance.stage is Unmounting)
            ==> instance.resume(outcome).0.links(rootfs) is None,
        instance.stage is Unmounting && outcome is Done ==> instance.resume(outcome).0.links(
            rootfs,
        ) is None,
{
}

/// Unmounting is idempotent. A filesystem that was never mounted, or has
/// been unmounted, is left as it is and no effect is asked for; and once an
/// unmount was done, every further one is of that kind.
pub proof fn law_unmount_is_idempotent(instance: BinderfsModel, outcome: OutcomeModel)
    ensures
        !instance.mounted ==> instance.unmount() == (instance.at(BinderStage::Idle), NextModel::Done),
        instance.mounted && outcome is Done ==> {
            let unmounted = instance.unmount().0.resume(outcome);
            &&& unmounted.1 is Done
            &&& !unmounted.0.mounted
            &&& unmounted.0.unmount() == (unmounted.0, NextModel::Done)
        },
{
}

} // verus!
