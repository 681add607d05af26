//! Buffers that are handed to the display server, and which of them a
//! surface shows.
//!
//! A buffer is known here by the number of its file descriptor and by its
//! geometry. The host owns the descriptor and talks to the display server.

use vstd::prelude::*;
use vstd::string::StringExecFns;

verus! {

/// What can go wrong with a buffer on its way to a surface.
#[derive(Debug, Clone, PartialEq, Eq)]
pub enum DmabufError {
    InvalidBufferFd,
    BufferImportFailed(String),
    SurfaceCommitFailed(String),
    SyncError(String),
    BufferLocked,
}

/// The text of a failure.
pub open spec fn dmabuf_error_text(error: DmabufError) -> Seq<char> {
    match error {
        DmabufError::InvalidBufferFd => "invalid buffer file descriptor"@,
        DmabufError::BufferImportFailed(reason) => "buffer import failed: "@ + reason@,
        DmabufError::SurfaceCommitFailed(reason) => "surface commit failed: "@ + reason@,
        DmabufError::SyncError(reason) => "synchronization error: "@ + reason@,
        DmabufError::BufferLocked => "buffer is locked by compositor"@,
    }
}

fn text_about(what: &str, subject: &str) -> (message: String)
    ensures
        message@ == what@ + subject@,
{
    let mut message = String::from_str(what);
    message.append(subject);
    message
}

impl DmabufError {
    /// The text to show for the failure.
    pub fn to_string(&self) -> (r: String)
        ensures
            r@ == dmabuf_error_text(*self),
    {
        match self {
            DmabufError::InvalidBufferFd => String::from_str("invalid buffer file descriptor"),
            DmabufError::BufferImportFailed(reason) => text_about(
                "buffer import failed: ",
                reason.as_str(),
            ),
            DmabufError::SurfaceCommitFailed(reason) => text_about(
                "surface commit failed: ",
                reason.as_str(),
            ),
            DmabufError::SyncError(reason) => text_about(
                "synchronization error: ",
                reason.as_str(),
            ),
            DmabufError::BufferLocked => String::from_str("buffer is locked by compositor"),
        }
    }
}

/// A buffer of device memory that a surface can show.
#[derive(Debug, Clone, Copy, PartialEq, Eq, Structural)]
pub struct DmabufBuffer {
    fd: i32,
    width: u32,
    height: u32,
    stride: u32,
    format: u32,
    offset: u32,
}

impl DmabufBuffer {
    /// The geometry of a buffer can be used: neither its width nor its
    /// height nor its stride is zero.
    pub open spec fn usable(width: u32, height: u32, stride: u32) -> bool {
        width != 0 && height != 0 && stride != 0
    }

    /// The file descriptor of the buffer.
    pub closed spec fn spec_fd(&self) -> i32 {
        self.fd
    }

    /// The geometry of the buffer: width, height, stride, pixel format and
    /// offset.
    pub closed spec fn geometry(&self) -> (u32, u32, u32, u32, u32) {
        (self.width, self.height, self.stride, self.format, self.offset)
    }

    /// A buffer for the descriptor `fd`: `width` by `height` pixels of the
    /// format `format`, with lines of `stride` bytes, from `offset` on. A
    /// descriptor that is none is refused first, a geometry that cannot be
    /// used second.
    pub fn new(fd: i32, width: u32, height: u32, stride: u32, format: u32, offset: u32) -> (r:
        Result<DmabufBuffer, DmabufError>)
        ensures
            r is Ok <==> fd >= 0 && Self::usable(width, height, stride),
            r matches Ok(buffer) ==> buffer.spec_fd() == fd && buffer.geometry() == (
                width,
                height,
                stride,
                format,
                offset,
            ),
            fd < 0 ==> r == Err::<DmabufBuffer, DmabufError>(DmabufError::InvalidBufferFd),
            fd >= 0 && !Self::usable(width, height, stride) ==> (r matches Err(
                DmabufError::BufferImportFailed(reason),
            ) && reason@
                == "invalid dimensions: width, height, and stride must be non-zero"@),
    {
        if fd < 0 {
            return Err(DmabufError::InvalidBufferFd);
        }
        if width == 0 || height == 0 || stride == 0 {
            return Err(
                DmabufError::BufferImportFailed(
                    String::from_str(
                        "invalid dimensions: width, height, and stride must be non-zero",
                    ),
                ),
            );
        }
        Ok(DmabufBuffer { fd, width, height, stride, format, offset })
    }

    /// The width in pixels.
    pub fn width(&self) -> (r: u32)
        ensures
            r == self.geometry().0,
    {
        self.width
    }

    /// The height in pixels.
    pub fn height(&self) -> (r: u32)
        ensures
            r == self.geometry().1,
    {
        self.height
    }

    /// The bytes of one line.
    pub fn stride(&self) -> (r: u32)
        ensures
            r == self.geometry().2,
    {
        self.stride
    }

    /// The pixel format.
    pub fn format(&self) -> (r: u32)
        ensures
            r == self.geometry().3,
    {
        self.format
    }

    /// Where the pixels begin.
    pub fn offset(&self) -> (r: u32)
        ensures
            r == self.geometry().4,
    {
        self.offset
    }

    /// The file descriptor.
    pub fn fd(&self) -> (r: i32)
        ensures
            r == self.spec_fd(),
    {
        self.fd
    }
}

/// The buffers of one surface: the one it shows, and the one that is to be
/// shown next.
#[derive(Debug)]
pub struct SurfaceDmabufManager {
    current_buffer: Option<DmabufBuffer>,
    pending_buffer: Option<DmabufBuffer>,
}

impl SurfaceDmabufManager {
    /// The buffer that the surface shows.
    pub closed spec fn current(&self) -> Option<DmabufBuffer> {
        self.current_buffer
    }

    /// The buffer that is to be shown next.
    pub closed spec fn pending(&self) -> Option<DmabufBuffer> {
        self.pending_buffer
    }

    /// A surface that shows nothing.
    pub fn new() -> (manager: SurfaceDmabufManager)
        ensures
            manager.current() is None,
            manager.pending() is None,
    {
        SurfaceDmabufManager { current_buffer: None, pending_buffer: None }
    }

    /// Makes `buffer` the one to be shown next, in place of any other.
    pub fn queue_buffer(&mut self, buffer: DmabufBuffer)
        ensures
            final(self).pending() == Some(buffer),
            final(self).current() == old(self).current(),
    {
        self.pending_buffer = Some(buffer);
    }

    /// Shows the buffer that was queued. Without one the commit fails and
    /// the surface shows what it showed.
    pub fn commit_buffer(&mut self) -> (r: Result<(), DmabufError>)
        ensures
            r is Ok <==> old(self).pending() is Some,
            r is Ok ==> final(self).current() == old(self).pending() && final(self).pending()
                is None,
            r matches Err(e) ==> final(self).current() == old(self).current() && final(
            self).pending() is None && (e matches DmabufError::SurfaceCommitFailed(reason)
                && reason@ == "no pending buffer to commit"@),
    {
        match self.pending_buffer.take() {
            Some(buffer) => {
                self.current_buffer = Some(buffer);
                Ok(())
            },
            None => Err(
                DmabufError::SurfaceCommitFailed(String::from_str("no pending buffer to commit")),
            ),
        }
    }

    /// The buffer that the surface shows.
    pub fn current_buffer(&self) -> (r: Option<&DmabufBuffer>)
        ensures
            match r {
                Some(buffer) => Some(*buffer),
                None => None,
            } == self.current(),
    {
        self.current_buffer.as_ref()
    }

    /// Takes the buffer that the surface shows away from it.
    pub fn release_buffer(&mut self) -> (r: Option<DmabufBuffer>)
        ensures
            r == old(self).current(),
            final(self).current() is None,
            final(self).pending() == old(self).pending(),
    {
        self.current_buffer.take()
    }
}

impl Default for SurfaceDmabufManager {
    fn default() -> (manager: SurfaceDmabufManager)
        ensures
            manager.current() is None,
            manager.pending() is None,
    {
        SurfaceDmabufManager::new()
    }
}

/// What can go wrong between the surface composer and a virtual buffer.
#[derive(Debug, Clone, PartialEq, Eq)]
pub enum SurfaceflingerError {
    InvalidBufferFd,
    BufferConfigurationFailed(String),
    FrameNotificationFailed(String),
}

/// The text of a failure.
pub open spec fn surfaceflinger_error_text(error: SurfaceflingerError) -> Seq<char> {
    match error {
        SurfaceflingerError::InvalidBufferFd => "invalid buffer file descriptor"@,
        SurfaceflingerError::BufferConfigurationFailed(reason) =>
            "failed to configure virtual buffer: "@ + reason@,
        SurfaceflingerError::FrameNotificationFailed(reason) => "frame notification failed: "@
            + reason@,
    }
}

impl SurfaceflingerError {
    /// The text to show for the failure.
    pub fn to_string(&self) -> (r: String)
        ensures
            r@ == surfaceflinger_error_text(*self),
    {
        match self {
            SurfaceflingerError::InvalidBufferFd => String::from_str(
                "invalid buffer file descriptor",
            ),
            SurfaceflingerError::BufferConfigurationFailed(reason) => text_about(
                "failed to configure virtual buffer: ",
                reason.as_str(),
            ),
            SurfaceflingerError::FrameNotificationFailed(reason) => text_about(
                "frame notification failed: ",
                reason.as_str(),
            ),
        }
    }
}

/// A buffer that the contained system draws into.
#[derive(Debug, Clone, Copy, PartialEq, Eq, Structural)]
pub struct VirtualBuffer {
    fd: i32,
    width: u32,
    height: u32,
    stride: u32,
    format: u32,
}

impl VirtualBuffer {
    /// The file descriptor of the buffer.
    pub closed spec fn spec_fd(&self) -> i32 {
        self.fd
    }

    /// The geometry of the buffer: width, height, stride and pixel format.
    pub closed spec fn geometry(&self) -> (u32, u32, u32, u32) {
        (self.width, self.height, self.stride, self.format)
    }

    /// A buffer for the descriptor `fd`. A descriptor that is none is
    /// refused.
    pub fn new(fd: i32, width: u32, height: u32, stride: u32, format: u32) -> (r: Result<
        VirtualBuffer,
        SurfaceflingerError,
    >)
        ensures
            r is Ok <==> fd >= 0,
            r matches Ok(buffer) ==> buffer.spec_fd() == fd && buffer.geometry() == (
                width,
                height,
                stride,
                format,
            ),
            r matches Err(e) ==> e == SurfaceflingerError::InvalidBufferFd,
    {
        if fd < 0 {
            return Err(SurfaceflingerError::InvalidBufferFd);
        }
        Ok(VirtualBuffer { fd, width, height, stride, format })
    }

    /// The width in pixels.
    pub fn width(&self) -> (r: u32)
        ensures
            r == self.geometry().0,
    {
        self.width
    }

    /// The height in pixels.
    pub fn height(&self) -> (r: u32)
        ensures
            r == self.geometry().1,
    {
        self.height
    }

    /// The bytes of one line.
    pub fn stride(&self) -> (r: u32)
        ensures
            r == self.geometry().2,
    {
        self.stride
    }

    /// The pixel format.
    pub fn format(&self) -> (r: u32)
        ensures
            r == self.geometry().3,
    {
        self.format
    }

    /// Gives up the buffer for its file descriptor.
    pub fn into_fd(self) -> (r: i32)
        ensures
            r == self.spec_fd(),
    {
        self.fd
    }
}

/// The display to connect to, as the environment names it: the variable
/// must be set, and must not be empty.
pub fn create_wayland_connection(display: Option<&str>) -> (r: Result<String, String>)
    ensures
        r is Ok <==> (display matches Some(name) && name@.len() > 0),
        r matches Ok(name) ==> name@ == display->Some_0@,
        r matches Err(reason) ==> reason@ == (if display is None {
            "WAYLAND_DISPLAY environment variable not set"@
        } else {
            "WAYLAND_DISPLAY environment variable is empty"@
        }),
{
    match display {
        None => Err(String::from_str("WAYLAND_DISPLAY environment variable not set")),
        Some(name) => {
            if name.is_empty() {
                Err(String::from_str("WAYLAND_DISPLAY environment variable is empty"))
            } else {
                Ok(String::from_str(name))
            }
        },
    }
}

} // verus!
