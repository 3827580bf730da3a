//! The instance: the root of every other object's lifetime.

use vstd::prelude::*;

use super::adapter::{Adapter, AdapterView};
use super::capability::Capabilities;
use super::creation::{backends, begun, priority, Action, ActionView, Creation};
use super::surface::{surface_view, Surface};
use super::vk::surface::surface_made;
use super::vk::{PhysicalDevice, VkInstance, Win32SurfaceRequest};
use super::{Backend, Error, Release};
use crate::os::Window;
use crate::Version;

verus! {

/// Information passed to the driver about the application.
#[derive(Debug, Clone, Copy)]
pub struct ApplicationInfo<'a> {
    /// The name of the application.
    pub name: &'a str,
    /// The version of the application.
    pub version: Version,
}

/// What an instance is asked to be.
#[derive(Debug, Clone, Copy)]
pub struct InstanceInfo<'a> {
    /// Optional information about the application.
    pub app_info: Option<ApplicationInfo<'a>>,
    /// Whether to enable validation. This is strongly recommended for debug builds.
    pub validation: bool,
    /// Whether to enable debugging capabilities. This is recommended for debug builds.
    pub debug: bool,
}

impl<'a> Default for InstanceInfo<'a> {
    fn default() -> (info: Self)
        ensures
            info.app_info is None,
            info.validation,
            info.debug,
    {
        Self { app_info: None, validation: true, debug: true }
    }
}

/// What an instance is, whatever its backend.
pub struct InstanceView {
    pub backend: Backend,
    /// The handle of the native instance.
    pub handle: u64,
    /// The physical devices that the instance found, in the driver's order.
    pub devices: Seq<PhysicalDevice>,
    /// The handle of the messenger of the diagnostics channel.
    pub messenger: Option<u64>,
    /// The optional capabilities that are in effect.
    pub active: Capabilities,
}

/// Opaque owned object to an instance.
pub enum Instance {
    Vk(VkInstance),
}

impl View for Instance {
    type V = InstanceView;

    open spec fn view(&self) -> InstanceView {
        match self {
            Instance::Vk(instance) => instance@,
        }
    }
}

/// An instance as the library hands it out.
pub open spec fn instance_view(made: core::result::Result<Instance, Error>) -> core::result::Result<
    InstanceView,
    Error,
> {
    match made {
        Ok(instance) => Ok(instance@),
        Err(error) => Err(error),
    }
}

/// What the parts that a driver returned come to: an instance, or
/// `NotSupported` where there is no physical device.
pub open spec fn instance_of(
    backend: Backend,
    active: Capabilities,
    handle: u64,
    messenger: Option<u64>,
    devices: Seq<PhysicalDevice>,
) -> core::result::Result<InstanceView, Error> {
    if devices.len() == 0 {
        Err(Error::NotSupported)
    } else {
        Ok(InstanceView { backend, handle, devices, messenger, active })
    }
}

impl Instance {
    /// Begins the creation of an instance with the preferred backend.
    ///
    /// If the preferred backend fails to be instantiated, the creation
    /// goes on with the next backend of the priority list. When every
    /// backend has failed, the failure is `NotSupported`.
    ///
    /// To only check a single backend use [`Instance::with_backend()`].
    ///
    /// # Arguments
    ///
    /// `info` - Info about the instance that is passed to the implementation.
    pub fn new<'a>(info: &InstanceInfo<'a>) -> (next: (Creation<'a>, Action<'a>))
        ensures
            (next.0@, next.1@) == begun(*info, priority(), false),
            next.1@ == ActionView::Load(Backend::Vulkan),
    {
        Creation::begin(info, backends(), false)
    }

    /// Begins the creation of an instance with the supplied backend.
    ///
    /// Unlike [`Instance::new()`] this only tries to instantiate with the
    /// passed in backend, and a failure is reported as it is.
    ///
    /// # Arguments
    ///
    /// - `backend` - The backend to use for instantiation.
    /// - `info` - Info about the instance that is passed to the implementation.
    pub fn with_backend<'a>(backend: Backend, info: &InstanceInfo<'a>) -> (next: (
        Creation<'a>,
        Action<'a>,
    ))
        ensures
            (next.0@, next.1@) == begun(*info, seq![backend], true),
            next.1@ == ActionView::Load(backend),
    {
        let mut candidates: Vec<Backend> = Vec::new();
        candidates.push(backend);
        assert(candidates@ =~= seq![backend]);
        Creation::begin(info, candidates, true)
    }

    /// Makes the instance of what a backend's driver returned while it
    /// was created.
    pub fn of(
        backend: Backend,
        active: Capabilities,
        handle: u64,
        messenger: Option<u64>,
        devices: Vec<PhysicalDevice>,
    ) -> (made: core::result::Result<Self, Error>)
        ensures
            instance_view(made) == instance_of(backend, active, handle, messenger, devices@),
    {
        match backend {
            Backend::Vulkan => match VkInstance::new(active, handle, messenger, devices) {
                Ok(instance) => Ok(Instance::Vk(instance)),
                Err(error) => Err(error),
            },
        }
    }

    /// Returns the currently used backend.
    pub fn backend(&self) -> (backend: Backend)
        ensures
            backend == self@.backend,
    {
        match self {
            Instance::Vk(instance) => instance.backend(),
        }
    }

    /// Returns which optional capabilities are in effect.
    pub fn active(&self) -> (active: Capabilities)
        ensures
            active == self@.active,
    {
        match self {
            Instance::Vk(instance) => instance.active(),
        }
    }

    /// Returns all the adapters of the instance, one for each physical
    /// device and in the driver's order. There is at least one.
    pub fn enumerate_adapters(&self) -> (adapters: Vec<Adapter<'_>>)
        ensures
            adapters.len() >= 1,
            adapters.len() == self@.devices.len(),
            forall|i: int|
                0 <= i < adapters.len() ==> (#[trigger] adapters[i])@ == (AdapterView {
                    backend: self@.backend,
                    device: self@.devices[i],
                    instance: self@.handle,
                }),
    {
        match self {
            Instance::Vk(instance) => instance.enumerate_adapters(),
        }
    }

    /// What to ask of the driver for a surface of `window`.
    pub fn surface_request(&self, window: &Window) -> (request: Win32SurfaceRequest)
        ensures
            request == (Win32SurfaceRequest {
                instance: self@.handle,
                hinstance: window.0.module(),
                hwnd: window.0.window(),
            }),
    {
        match self {
            Instance::Vk(instance) => instance.surface_request(window),
        }
    }

    /// Creates a new surface of what the driver answered to
    /// `surface_request`: the surface of the handle that it returned, or
    /// its failure at its place in the taxonomy.
    pub fn new_surface<'a>(
        &'a self,
        window: &'a Window,
        native: core::result::Result<u64, i32>,
    ) -> (made: core::result::Result<Surface<'a>, Error>)
        ensures
            surface_view(made) == surface_made(self@.handle, native),
    {
        match self {
            Instance::Vk(instance) => instance.new_surface(window, native),
        }
    }

    /// Gives the instance up: its native objects in the order in which they
    /// are to be destroyed, the messenger first and the instance last.
    pub fn release(self) -> (steps: Vec<Release>)
        ensures
            steps@ == super::release_order(self@.messenger, self@.handle),
    {
        match self {
            Instance::Vk(instance) => instance.release(),
        }
    }
}

} // verus!
