//! The adapter: one physical device of an instance.

use vstd::prelude::*;

use super::surface::Surface;
use super::vk::{PhysicalDevice, VkAdapter};
use super::{Backend, Error};

verus! {

pub trait AdapterApi {

}

/// Information about an adapter itself.
#[derive(Debug, Clone, Copy)]
pub struct AdapterInfo<'a> {
    name: &'a str,
}

impl<'a> AdapterInfo<'a> {
    /// The adapter's name.
    pub closed spec fn label(self) -> Seq<char> {
        self.name@
    }

    pub fn new(name: &'a str) -> (info: Self)
        ensures
            info.label() == name@,
    {
        Self { name }
    }

    pub fn name(&self) -> (name: &'a str)
        ensures
            name@ == self.label(),
    {
        self.name
    }
}

/// What an adapter is, whatever its backend.
pub struct AdapterView {
    pub backend: Backend,
    /// The physical device that the adapter stands for.
    pub device: PhysicalDevice,
    /// The handle of the native instance that found the device.
    pub instance: u64,
}

/// What the driver is asked about an adapter and a surface.
#[derive(Debug, Clone, Copy, PartialEq, Eq, Structural)]
pub struct SupportQuery {
    /// The handle of the physical device.
    pub physical_device: u64,
    /// The queue family that would present.
    pub queue_family_index: u32,
    /// The handle of the surface.
    pub surface: u64,
}

/// What to ask the driver about an adapter and a surface: nothing where
/// they belong to different backends.
pub open spec fn support_query(adapter: AdapterView, surface: super::surface::SurfaceView) -> core::result::Result<
    SupportQuery,
    Error,
> {
    if adapter.backend != surface.backend {
        Err(Error::BackendMismatch)
    } else {
        Ok(
            SupportQuery {
                physical_device: adapter.device.handle,
                queue_family_index: 0,
                surface: surface.handle,
            },
        )
    }
}

/// What the driver's answer comes to: its answer, or `Unknown` where it
/// failed.
pub open spec fn support_answer(native: core::result::Result<bool, i32>) -> core::result::Result<
    bool,
    Error,
> {
    match native {
        Ok(supported) => Ok(supported),
        Err(_) => Err(Error::Unknown),
    }
}

/// Whether a surface may present on an adapter: `BackendMismatch` where
/// they belong to different backends, whatever the driver would say.
pub open spec fn surface_supported(
    adapter: AdapterView,
    surface: super::surface::SurfaceView,
    native: core::result::Result<bool, i32>,
) -> core::result::Result<bool, Error> {
    if adapter.backend != surface.backend {
        Err(Error::BackendMismatch)
    } else {
        support_answer(native)
    }
}

/// An opaque reference to one physical device. It borrows the instance
/// that found the device.
pub enum Adapter<'a> {
    Vk(VkAdapter<'a>),
}

impl<'a> View for Adapter<'a> {
    type V = AdapterView;

    open spec fn view(&self) -> AdapterView {
        match self {
            Adapter::Vk(adapter) => adapter@,
        }
    }
}

impl<'a> AdapterApi for Adapter<'a> {

}

impl<'a> Adapter<'a> {
    /// Returns the backend that found the adapter.
    pub fn backend(&self) -> (backend: Backend)
        ensures
            backend == self@.backend,
    {
        match self {
            Adapter::Vk(adapter) => adapter.backend(),
        }
    }

    /// Returns info about the adapter itself.
    pub fn info(&self) -> (info: AdapterInfo<'a>)
        ensures
            info.label() == self@.device.name@,
    {
        match self {
            Adapter::Vk(adapter) => adapter.info(),
        }
    }

    /// Returns what to ask the driver in order to learn whether the
    /// surface may present on this adapter, or `BackendMismatch` where
    /// there is nothing to ask.
    pub fn surface_support_query(&self, surface: &Surface) -> (query: core::result::Result<
        SupportQuery,
        Error,
    >)
        ensures
            query == support_query(self@, surface@),
    {
        if self.backend() != surface.backend() {
            return Err(Error::BackendMismatch);
        }
        match (self, surface) {
            (Adapter::Vk(adapter), Surface::Vk(surface)) => Ok(adapter.surface_support_query(surface)),
        }
    }

    /// Returns whether the surface may present on this adapter.
    ///
    /// # Arguments
    ///
    /// - `surface` - The surface, presentation support is checked on.
    /// - `native` - The driver's answer to `surface_support_query`, which
    ///   is not read where the backends differ.
    pub fn is_surface_supported(
        &self,
        surface: &Surface,
        native: core::result::Result<bool, i32>,
    ) -> (supported: core::result::Result<bool, Error>)
        ensures
            supported == surface_supported(self@, surface@, native),
            self@.backend != surface@.backend ==> supported == Err::<bool, Error>(
                Error::BackendMismatch,
            ),
    {
        if self.backend() != surface.backend() {
            return Err(Error::BackendMismatch);
        }
        match (self, surface) {
            (Adapter::Vk(adapter), Surface::Vk(surface)) => adapter.is_surface_supported(
                surface,
                native,
            ),
        }
    }
}

} // verus!
