//! A rootless supervisor for a contained Android system.
//!
//! A stripped-down Android system image is booted as an isolated process tree
//! of an ordinary user: its images are mounted in userspace, an overlay is
//! laid over them inside fresh user and mount namespaces, and init is started
//! and watched there.
//!
//! The library decides and its host performs. Nothing here touches a file, a
//! process or the kernel: every such action is an [`host::Effect`] that the
//! host is asked for, and the library goes on from the [`host::Outcome`] that
//! the host reports. What the library asks for, in which order, and what it
//! makes of each outcome is stated in contracts and proved.
//!
//! - [`container`] is the supervisor of one sandbox, [`lifecycle`] its state
//!   machine over plain values, and [`laws`] what holds of it whatever the
//!   host reports.
//! - [`image`], [`assembly`] and [`tools`] say where the images and the
//!   directories of a sandbox are, what goes into the writable layer, and how
//!   the outside tools are called.
//! - [`sandbox`], [`plan`] and [`binderfs`] hold namespace entry, the mounts
//!   inside the namespaces, and the private binder filesystem.
//! - [`prefix`], [`zygote`], [`apk`], [`doctor`], [`userns`], [`runtime`] and
//!   [`display`] serve the supervisor: the directories of an application, the
//!   start of its runtime, its archive, the checks of the host, the stand-ins
//!   for system services, and the buffers of a surface.
//! - [`host`], [`error`], [`path`] and [`text`] are shared by all of them.

pub mod apk;
pub mod assembly;
pub mod binderfs;
pub mod container;
pub mod display;
pub mod doctor;
pub mod error;
pub mod host;
pub mod image;
pub mod laws;
pub mod lifecycle;
pub mod path;
pub mod plan;
pub mod prefix;
pub mod runtime;
pub mod sandbox;
pub mod text;
pub mod tools;
pub mod userns;
pub mod zygote;
