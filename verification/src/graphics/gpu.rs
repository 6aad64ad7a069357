//! Graphics backend selection and the 2D operations routed through it. 2D
//! drawing always goes to the software back buffer; the backend decides how a
//! frame reaches the screen.

use vstd::prelude::*;
use crate::graphics::framebuffer::{Framebuffer, repainted, solid_rect};

verus! {

/// GPU backend type.
#[derive(Debug, Clone, Copy, PartialEq, Eq, Structural)]
pub enum GpuBackend {
    /// Software rendering via the bootloader framebuffer.
    Software,
    /// VMware SVGA II with 2D acceleration.
    Vmsvga,
    /// SVGA3D (GPU 3D rasterization).
    Svga3D,
}

/// Resolution used when no display is available at all.
pub const FALLBACK_SIZE: (usize, usize) = (640, 480);

/// The currently active backend.
pub fn active_backend(backend: &GpuBackend) -> (r: GpuBackend)
    ensures
        r == *backend,
{
    *backend
}

/// Choose the backend from what the devices reported: `vmsvga` is the mode of
/// an initialized VMSVGA device, `svga3d_ok` whether 3D came up on it, and
/// `software` the size of the bootloader framebuffer. Returns the backend and
/// the screen size (640x480 when nothing is available).
pub fn init(vmsvga: Option<(usize, usize)>, svga3d_ok: bool, software: Option<(usize, usize)>) -> (r: (GpuBackend, (usize, usize)))
    ensures
        r == match vmsvga {
            Some(dims) => (if svga3d_ok { GpuBackend::Svga3D } else { GpuBackend::Vmsvga }, dims),
            None => (GpuBackend::Software, match software {
                Some(dims) => dims,
                None => FALLBACK_SIZE,
            }),
        },
{
    match vmsvga {
        Some(dims) => {
            if svga3d_ok {
                (GpuBackend::Svga3D, dims)
            } else {
                (GpuBackend::Vmsvga, dims)
            }
        },
        None => {
            match software {
                Some(dims) => (GpuBackend::Software, dims),
                None => (GpuBackend::Software, FALLBACK_SIZE),
            }
        },
    }
}

/// Screen size from the active backend: the device's mode for the VMware
/// backends, the framebuffer's size (or 0x0) for software.
pub fn dimensions(backend: GpuBackend, device: (usize, usize), fb: &Option<Framebuffer>) -> (r: (usize, usize))
    ensures
        r == match backend {
            GpuBackend::Software => match fb {
                Some(f) => (f.width, f.height),
                None => (0, 0),
            },
            _ => device,
        },
{
    match backend {
        GpuBackend::Software => {
            match fb {
                Some(f) => (f.width, f.height),
                None => (0, 0),
            }
        },
        _ => device,
    }
}

/// Bytes per line of the active backend (0 without a framebuffer in software mode).
pub fn pitch(backend: GpuBackend, device_pitch: usize, fb: &Option<Framebuffer>) -> (r: usize)
    ensures
        r == match backend {
            GpuBackend::Software => match fb {
                Some(f) => f.pitch,
                None => 0,
            },
            _ => device_pitch,
        },
{
    match backend {
        GpuBackend::Software => {
            match fb {
                Some(f) => f.pitch,
                None => 0,
            }
        },
        _ => device_pitch,
    }
}

/// How a frame is presented.
#[derive(Debug, Clone, Copy, PartialEq, Eq, Structural)]
pub enum PresentAction {
    /// End the GPU 3D frame, which presents its render target.
    Gpu3dEndFrame,
    /// Copy the back buffer to the screen, then tell the device if asked.
    CopyBackBuffer { update_device: bool },
}

/// Decide how to present: the 3D path when SVGA3D is ready; otherwise copy the
/// back buffer, and on VMSVGA also send the device an update.
pub fn present(backend: GpuBackend, gpu3d_ready: bool, device_initialized: bool) -> (r: PresentAction)
    ensures
        r == if backend == GpuBackend::Svga3D && gpu3d_ready {
            PresentAction::Gpu3dEndFrame
        } else {
            PresentAction::CopyBackBuffer { update_device: backend == GpuBackend::Vmsvga && device_initialized }
        },
{
    if backend == GpuBackend::Svga3D && gpu3d_ready {
        PresentAction::Gpu3dEndFrame
    } else {
        PresentAction::CopyBackBuffer { update_device: backend == GpuBackend::Vmsvga && device_initialized }
    }
}

/// Who clears the screen.
#[derive(Debug, Clone, Copy, PartialEq, Eq, Structural)]
pub enum ClearAction {
    /// Clear the GPU 3D render target.
    Gpu3d,
    /// Clear through the VMSVGA device.
    Device,
    /// Nothing further to do (the back buffer was cleared, or nothing is ready).
    Done,
}

/// Clear with `color`: the back buffer in software mode (here), or the GPU
/// target or device when ready (returned for the caller).
pub fn clear(backend: GpuBackend, gpu3d_ready: bool, device_initialized: bool, fb: &mut Option<Framebuffer>, color: u32) -> (r: ClearAction)
    ensures
        r == match backend {
            GpuBackend::Svga3D => if gpu3d_ready { ClearAction::Gpu3d } else { ClearAction::Done },
            GpuBackend::Vmsvga => if device_initialized { ClearAction::Device } else { ClearAction::Done },
            GpuBackend::Software => ClearAction::Done,
        },
        backend != GpuBackend::Software ==> *final(fb) == *old(fb),
        backend == GpuBackend::Software ==> match (*old(fb), *final(fb)) {
            (Some(a), Some(b)) => {
                &&& b.width == a.width && b.height == a.height && b.pitch == a.pitch && b.bpp == a.bpp
                &&& b.back_buffer@.len() == a.back_buffer@.len()
                &&& forall|i: int| 0 <= i < b.back_buffer@.len() ==> b.back_buffer@[i] == color
            },
            (None, None) => true,
            _ => false,
        },
{
    match backend {
        GpuBackend::Svga3D => if gpu3d_ready { ClearAction::Gpu3d } else { ClearAction::Done },
        GpuBackend::Vmsvga => if device_initialized { ClearAction::Device } else { ClearAction::Done },
        GpuBackend::Software => {
            match fb {
                Some(f) => f.clear(color),
                None => {},
            }
            ClearAction::Done
        },
    }
}

/// Put a pixel into the back buffer (every backend draws 2D there).
pub fn put_pixel(fb: &mut Option<Framebuffer>, x: usize, y: usize, color: u32)
    requires
        *old(fb) matches Some(f) ==> f.wf(),
    ensures
        match (*old(fb), *final(fb)) {
            (Some(a), Some(b)) => b.wf() && repainted(a, b, solid_rect(x as int, y as int, x + 1, y + 1, color)),
            (None, None) => true,
            _ => false,
        },
{
    match fb {
        Some(f) => f.put_pixel(x, y, color),
        None => {},
    }
}

/// Read a pixel of the back buffer (0 without a framebuffer or outside it).
pub fn get_pixel(fb: &Option<Framebuffer>, x: usize, y: usize) -> (r: u32)
    requires
        fb matches Some(f) ==> f.wf(),
    ensures
        r == match fb {
            Some(f) => if x < f.width && y < f.height { f.pixel(x as int, y as int) } else { 0 },
            None => 0,
        },
{
    match fb {
        Some(f) => f.get_pixel(x, y),
        None => 0,
    }
}

/// Fill a rectangle of the back buffer.
pub fn fill_rect(fb: &mut Option<Framebuffer>, x: usize, y: usize, w: usize, h: usize, color: u32)
    requires
        *old(fb) matches Some(f) ==> f.wf(),
        w > 0 && h > 0 ==> x + w - 1 <= usize::MAX && y + h - 1 <= usize::MAX,
    ensures
        match (*old(fb), *final(fb)) {
            (Some(a), Some(b)) => b.wf() && repainted(a, b, solid_rect(x as int, y as int, x + w, y + h, color)),
            (None, None) => true,
            _ => false,
        },
{
    match fb {
        Some(f) => f.fill_rect(x, y, w, h, color),
        None => {},
    }
}

/// Whether the active backend is ready: the 3D device, the VMSVGA device, or
/// the framebuffer, by backend.
pub fn is_initialized(backend: GpuBackend, gpu3d_ready: bool, device_initialized: bool, fb: &Option<Framebuffer>) -> (r: bool)
    ensures
        r == match backend {
            GpuBackend::Svga3D => gpu3d_ready,
            GpuBackend::Vmsvga => device_initialized,
            GpuBackend::Software => fb is Some,
        },
{
    match backend {
        GpuBackend::Svga3D => gpu3d_ready,
        GpuBackend::Vmsvga => device_initialized,
        GpuBackend::Software => fb.is_some(),
    }
}

/// Spec name of a backend.
pub open spec fn backend_label(backend: GpuBackend) -> Seq<char> {
    match backend {
        GpuBackend::Svga3D => "SVGA3D (GPU 3D)"@,
        GpuBackend::Vmsvga => "VMSVGA (2D accel)"@,
        GpuBackend::Software => "Software (Limine)"@,
    }
}

/// A string describing the backend.
pub fn backend_name(backend: GpuBackend) -> (r: &'static str)
    ensures
        r@ == backend_label(backend),
{
    match backend {
        GpuBackend::Svga3D => "SVGA3D (GPU 3D)",
        GpuBackend::Vmsvga => "VMSVGA (2D accel)",
        GpuBackend::Software => "Software (Limine)",
    }
}

/// Whether GPU 3D rendering is available.
pub fn has_3d(backend: GpuBackend) -> (r: bool)
    ensures
        r == (backend == GpuBackend::Svga3D),
{
    backend == GpuBackend::Svga3D
}

/// Whether any hardware acceleration is available.
pub fn has_hw_accel(backend: GpuBackend) -> (r: bool)
    ensures
        r == (backend == GpuBackend::Svga3D || backend == GpuBackend::Vmsvga),
{
    backend == GpuBackend::Svga3D || backend == GpuBackend::Vmsvga
}

} // verus!
