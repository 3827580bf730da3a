//! The Vulkan surface of a Win32 window.

use vstd::prelude::*;

use super::{error_of, VkInstance, VkResult};
use crate::os::Window;
use crate::rhi::surface::{SurfaceApi, SurfaceView};
use crate::rhi::{Backend, Error, IntoError, Release};

verus! {

/// What the driver is asked when a surface of a Win32 window is made.
#[derive(Debug, Clone, Copy, PartialEq, Eq, Structural)]
pub struct Win32SurfaceRequest {
    /// The handle of the native instance that makes the surface.
    pub instance: u64,
    /// The handle of the module that made the window.
    pub hinstance: isize,
    /// The handle of the window.
    pub hwnd: isize,
}

pub struct VkSurface<'a> {
    instance: &'a VkInstance,
    handle: u64,
    window: &'a Window,
}

impl<'a> View for VkSurface<'a> {
    type V = SurfaceView;

    closed spec fn view(&self) -> SurfaceView {
        SurfaceView { backend: Backend::Vulkan, handle: self.handle, instance: self.instance@.handle }
    }
}

impl<'a> SurfaceApi for VkSurface<'a> {

}

/// What the making of a surface comes to: the surface of the handle that
/// the driver returned, or the driver's failure at its place in the
/// taxonomy.
pub open spec fn surface_made(instance: u64, native: core::result::Result<u64, i32>) -> core::result::Result<
    SurfaceView,
    Error,
> {
    match native {
        Ok(handle) => Ok(SurfaceView { backend: Backend::Vulkan, handle, instance }),
        Err(code) => Err(error_of(code)),
    }
}

/// A surface as the library hands it out.
pub open spec fn made_view(made: core::result::Result<VkSurface, Error>) -> core::result::Result<
    SurfaceView,
    Error,
> {
    match made {
        Ok(surface) => Ok(surface@),
        Err(error) => Err(error),
    }
}

impl<'a> VkSurface<'a> {
    /// What to ask of the driver for a surface of `window`.
    pub fn request(instance: &VkInstance, window: &Window) -> (request: Win32SurfaceRequest)
        ensures
            request == (Win32SurfaceRequest {
                instance: instance@.handle,
                hinstance: window.0.module(),
                hwnd: window.0.window(),
            }),
    {
        Win32SurfaceRequest {
            instance: instance.handle(),
            hinstance: *window.platform_impl().hinstance(),
            hwnd: *window.platform_impl().hwnd(),
        }
    }

    /// Makes the surface of what the driver answered to `request`.
    pub fn new(
        instance: &'a VkInstance,
        window: &'a Window,
        native: core::result::Result<u64, i32>,
    ) -> (made: core::result::Result<Self, Error>)
        ensures
            made_view(made) == surface_made(instance@.handle, native),
    {
        match native {
            Ok(handle) => Ok(Self { instance, handle, window }),
            Err(code) => Err(VkResult(code).into_error()),
        }
    }

    pub fn backend(&self) -> (backend: Backend)
        ensures
            backend == self@.backend,
            backend == Backend::Vulkan,
    {
        Backend::Vulkan
    }

    /// Returns the instance that made the surface.
    pub fn instance(&self) -> (instance: &'a VkInstance)
        ensures
            instance@.handle == self@.instance,
    {
        self.instance
    }

    /// Returns the handle of the native surface.
    pub fn handle(&self) -> (handle: u64)
        ensures
            handle == self@.handle,
    {
        self.handle
    }

    pub fn release(self) -> (step: Release)
        ensures
            step == Release::Surface(self@.handle),
    {
        Release::Surface(self.handle)
    }
}

} // verus!
