//! The Vulkan adapter.

use vstd::prelude::*;

use super::{PhysicalDevice, VkInstance, VkSurface};
use crate::rhi::adapter::{support_answer, AdapterApi, AdapterInfo, AdapterView, SupportQuery};
use crate::rhi::{Backend, Error};

verus! {

pub trait VkAdapterApi {

}

#[derive(Clone, Copy)]
pub struct VkAdapter<'a> {
    instance: &'a VkInstance,
    handle: &'a PhysicalDevice,
}

impl<'a> View for VkAdapter<'a> {
    type V = AdapterView;

    closed spec fn view(&self) -> AdapterView {
        AdapterView {
            backend: Backend::Vulkan,
            device: *self.handle,
            instance: self.instance@.handle,
        }
    }
}

impl<'a> AdapterApi for VkAdapter<'a> {

}

impl<'a> VkAdapterApi for VkAdapter<'a> {

}

impl<'a> VkAdapter<'a> {
    pub(crate) fn new(instance: &'a VkInstance, handle: &'a PhysicalDevice) -> (adapter: Self)
        ensures
            adapter@ == (AdapterView {
                backend: Backend::Vulkan,
                device: *handle,
                instance: instance@.handle,
            }),
    {
        Self { instance, handle }
    }

    pub fn backend(&self) -> (backend: Backend)
        ensures
            backend == self@.backend,
            backend == Backend::Vulkan,
    {
        Backend::Vulkan
    }

    pub fn info(&self) -> (info: AdapterInfo<'a>)
        ensures
            info.label() == self@.device.name@,
    {
        AdapterInfo::new(self.handle.name.as_str())
    }

    /// What to ask the driver about this adapter and a surface of the same
    /// backend: whether the device's first queue family presents to it.
    pub fn surface_support_query(&self, surface: &VkSurface) -> (query: SupportQuery)
        ensures
            query == (SupportQuery {
                physical_device: self@.device.handle,
                queue_family_index: 0,
                surface: surface@.handle,
            }),
    {
        SupportQuery {
            physical_device: self.handle.handle,
            queue_family_index: 0,
            surface: surface.handle(),
        }
    }

    /// What the driver's answer to `surface_support_query` comes to.
    pub fn is_surface_supported(
        &self,
        surface: &VkSurface,
        native: core::result::Result<bool, i32>,
    ) -> (supported: core::result::Result<bool, Error>)
        ensures
            supported == support_answer(native),
    {
        match native {
            Ok(supported) => Ok(supported),
            Err(_) => Err(Error::Unknown),
        }
    }
}

} // verus!
