//! The Vulkan instance and what is read from the driver before one exists.

use vstd::prelude::*;

use super::surface::surface_made;
use super::{
    all_terminated, error_of, free_of_zero, names_of, VkAdapter, VkResult, VkSurface,
    Win32SurfaceRequest,
};
use crate::os::Window;
use crate::rhi::adapter::{Adapter, AdapterView};
use crate::rhi::surface::{surface_view, Surface};
use crate::rhi::capability::{names, offers, Capabilities, Supported, SupportedView};
use crate::rhi::creation::{Event, EventView};
use crate::rhi::instance::InstanceView;
use crate::rhi::{release_order, release_steps, Backend, Error, IntoError, Release};

verus! {

/// `ash::Entry`: the entry points of a loaded Vulkan library. Nothing is
/// known of one here; it is handed on to the calls that read from it.
#[verifier::external_type_specification]
#[verifier::external_body]
pub struct ExEntry(ash::Entry);

/// `ash::Entry::enumerate_instance_layer_properties`: the layers that the
/// loader knows, each by the 256 bytes that hold its name, or the driver's
/// result code, which is not that of success.
#[verifier::external_body]
fn layer_buffers(entry: &ash::Entry) -> (listed: core::result::Result<Vec<Vec<u8>>, i32>)
    ensures
        listed matches Ok(buffers) ==> forall|i: int|
            0 <= i < buffers.len() ==> (#[trigger] buffers[i]).len() == 256,
        listed matches Err(code) ==> code != 0,
{
    match entry.enumerate_instance_layer_properties() {
        Ok(layers) => Ok(
            layers.iter().map(|layer| layer.layer_name.iter().map(|byte| *byte as u8).collect()).collect(),
        ),
        Err(code) => Err(code.as_raw()),
    }
}

/// `ash::Entry::enumerate_instance_extension_properties`, asked of no
/// layer: the extensions that the driver offers, each by the 256 bytes that
/// hold its name, or the driver's result code, which is not that of success.
#[verifier::external_body]
fn extension_buffers(entry: &ash::Entry) -> (listed: core::result::Result<Vec<Vec<u8>>, i32>)
    ensures
        listed matches Ok(buffers) ==> forall|i: int|
            0 <= i < buffers.len() ==> (#[trigger] buffers[i]).len() == 256,
        listed matches Err(code) ==> code != 0,
{
    match entry.enumerate_instance_extension_properties(None) {
        Ok(extensions) => Ok(
            extensions.iter().map(|extension| extension.extension_name.iter().map(|byte| *byte as u8).collect()).collect(),
        ),
        Err(code) => Err(code.as_raw()),
    }
}

/// What the driver answers to an enumeration: the buffers that hold the
/// names, or the code of its failure.
pub type Answer = core::result::Result<Seq<Seq<u8>>, i32>;

/// An answer as the binding hands it over.
pub open spec fn answer_view(answer: core::result::Result<Vec<Vec<u8>>, i32>) -> Answer {
    match answer {
        Ok(buffers) => Ok(names(buffers@)),
        Err(code) => Err(code),
    }
}

/// What an answer of the driver looks like: each buffer has 256 bytes, and
/// the code of a failure is not that of success.
pub open spec fn is_answer(answer: Answer) -> bool {
    match answer {
        Ok(buffers) => forall|i: int| 0 <= i < buffers.len() ==> (#[trigger] buffers[i]).len() == 256,
        Err(code) => code != 0,
    }
}

/// Whether an answer of the driver holds a name: the name is that of one
/// of the buffers, and a failure is the driver's at its place in the
/// taxonomy.
pub open spec fn found_in(name: Seq<u8>, answer: Answer) -> core::result::Result<bool, Error> {
    match answer {
        Ok(buffers) => Ok(all_terminated(buffers).contains(name)),
        Err(code) => Err(error_of(code)),
    }
}

/// What the driver's two answers come to for the creation: the names that
/// the buffers hold, or the code of the first failure, that of the layers
/// before that of the extensions.
pub open spec fn offered(layers: Answer, extensions: Answer) -> EventView {
    match layers {
        Err(code) => EventView::QueryFailed(code),
        Ok(layers) => match extensions {
            Err(code) => EventView::QueryFailed(code),
            Ok(extensions) => EventView::Offered(
                SupportedView {
                    layers: all_terminated(layers),
                    extensions: all_terminated(extensions),
                },
            ),
        },
    }
}

/// What the binding hands over is an answer of the driver.
proof fn answers_are_answers(answer: core::result::Result<Vec<Vec<u8>>, i32>)
    requires
        answer matches Ok(buffers) ==> forall|i: int|
            0 <= i < buffers.len() ==> (#[trigger] buffers[i]).len() == 256,
        answer matches Err(code) ==> code != 0,
    ensures
        is_answer(answer_view(answer)),
{
    match answer {
        Ok(buffers) => {
            assert forall|i: int| 0 <= i < names(buffers@).len() implies (#[trigger] names(
                buffers@,
            )[i]).len() == 256 by {
                assert(buffers[i].len() == 256);
            }
        },
        Err(_) => {},
    }
}

/// Says whether an answer of the driver holds `name`.
///
/// A name that is found holds no zero byte, since a buffer's name ends at
/// its first one.
pub fn find(name: &Vec<u8>, answer: core::result::Result<Vec<Vec<u8>>, i32>) -> (found: core::result::Result<
    bool,
    Error,
>)
    ensures
        found == found_in(name@, answer_view(answer)),
        found == Ok::<bool, Error>(true) ==> forall|j: int| 0 <= j < name.len() ==> name[j] != 0,
        found matches Err(error) ==> answer matches Err(code) && error == error_of(code),
{
    match answer {
        Ok(buffers) => {
            let listed = names_of(&buffers);
            let present = offers(&listed, name);
            proof {
                if present {
                    let at = choose|i: int|
                        0 <= i < names(listed@).len() && names(listed@)[i] == name@;
                    assert(forall|j: int|
                        0 <= j < name.len() ==> names(listed@)[at][j] == name[j]);
                }
            }
            Ok(present)
        },
        Err(code) => Err(VkResult(code).into_error()),
    }
}

/// Makes the event that answers the creation's `Query` of the driver's two
/// answers.
pub fn offer(
    layers: core::result::Result<Vec<Vec<u8>>, i32>,
    extensions: core::result::Result<Vec<Vec<u8>>, i32>,
) -> (event: Event)
    ensures
        event@ == offered(answer_view(layers), answer_view(extensions)),
        event@ matches EventView::Offered(supported) ==> free_of_zero(supported.layers)
            && free_of_zero(supported.extensions),
{
    let layers = match layers {
        Ok(buffers) => names_of(&buffers),
        Err(code) => {
            return Event::QueryFailed(code);
        },
    };
    let extensions = match extensions {
        Ok(buffers) => names_of(&buffers),
        Err(code) => {
            return Event::QueryFailed(code);
        },
    };
    Event::Offered(Supported { layers, extensions })
}

/// One physical device, as the driver reported it.
pub struct PhysicalDevice {
    /// The device's handle.
    pub handle: u64,
    /// The device's name.
    pub name: String,
}

/// The native handles that an instance owns.
pub struct VkInstanceInner {
    handle: u64,
    physical_devices: Vec<PhysicalDevice>,
    debug_utils: Option<u64>,
}

impl VkInstanceInner {
    #[verifier::type_invariant]
    spec fn well_formed(self) -> bool {
        self.physical_devices.len() >= 1
    }
}

pub struct VkInstance {
    inner: VkInstanceInner,
    active: Capabilities,
}

impl View for VkInstance {
    type V = InstanceView;

    closed spec fn view(&self) -> InstanceView {
        InstanceView {
            backend: Backend::Vulkan,
            handle: self.inner.handle,
            devices: self.inner.physical_devices@,
            messenger: self.inner.debug_utils,
            active: self.active,
        }
    }
}

impl VkInstance {
    /// Makes the instance of what the driver returned while it was created.
    /// An instance without a physical device is none: `NotSupported`.
    pub fn new(
        active: Capabilities,
        handle: u64,
        debug_utils: Option<u64>,
        physical_devices: Vec<PhysicalDevice>,
    ) -> (made: core::result::Result<Self, Error>)
        ensures
            physical_devices.len() == 0 ==> made == Err::<Self, Error>(Error::NotSupported),
            physical_devices.len() > 0 ==> made is Ok && made->Ok_0@ == (InstanceView {
                backend: Backend::Vulkan,
                handle,
                devices: physical_devices@,
                messenger: debug_utils,
                active,
            }),
    {
        if physical_devices.len() == 0 {
            return Err(Error::NotSupported);
        }
        Ok(Self { inner: VkInstanceInner { handle, physical_devices, debug_utils }, active })
    }

    pub fn backend(&self) -> (backend: Backend)
        ensures
            backend == self@.backend,
            backend == Backend::Vulkan,
    {
        Backend::Vulkan
    }

    /// Returns the handle of the native instance.
    pub fn handle(&self) -> (handle: u64)
        ensures
            handle == self@.handle,
    {
        self.inner.handle
    }

    /// Returns the handle of the messenger of the diagnostics channel.
    pub fn debug_utils_messenger(&self) -> (messenger: Option<u64>)
        ensures
            messenger == self@.messenger,
    {
        self.inner.debug_utils
    }

    pub fn active(&self) -> (active: Capabilities)
        ensures
            active == self@.active,
    {
        self.active
    }

    /// Returns all the adapters of the instance, one for each physical
    /// device and in the driver's order. There is at least one.
    pub fn enumerate_adapters(&self) -> (adapters: Vec<Adapter<'_>>)
        ensures
            adapters.len() >= 1,
            adapters.len() == self@.devices.len(),
            forall|i: int|
                0 <= i < adapters.len() ==> (#[trigger] adapters[i])@ == (AdapterView {
                    backend: Backend::Vulkan,
                    device: self@.devices[i],
                    instance: self@.handle,
                }),
    {
        proof {
            use_type_invariant(&self.inner);
        }
        let mut adapters: Vec<Adapter<'_>> = Vec::new();
        let mut at: usize = 0;
        while at < self.inner.physical_devices.len()
            invariant
                at <= self.inner.physical_devices.len(),
                adapters.len() == at,
                forall|i: int|
                    0 <= i < at ==> (#[trigger] adapters[i])@ == (AdapterView {
                        backend: Backend::Vulkan,
                        device: self@.devices[i],
                        instance: self@.handle,
                    }),
            decreases self.inner.physical_devices.len() - at,
        {
            adapters.push(Adapter::Vk(VkAdapter::new(self, &self.inner.physical_devices[at])));
            at += 1;
        }
        adapters
    }

    /// What to ask of the driver for a surface of `window`.
    pub fn surface_request(&self, window: &Window) -> (request: Win32SurfaceRequest)
        ensures
            request == (Win32SurfaceRequest {
                instance: self@.handle,
                hinstance: window.0.module(),
                hwnd: window.0.window(),
            }),
    {
        VkSurface::request(self, window)
    }

    /// Creates a new surface of what the driver answered to
    /// `surface_request`.
    pub fn new_surface<'a>(
        &'a self,
        window: &'a Window,
        native: core::result::Result<u64, i32>,
    ) -> (made: core::result::Result<Surface<'a>, Error>)
        ensures
            surface_view(made) == surface_made(self@.handle, native),
    {
        match VkSurface::new(self, window, native) {
            Ok(surface) => Ok(Surface::Vk(surface)),
            Err(error) => Err(error),
        }
    }

    pub fn release(self) -> (steps: Vec<Release>)
        ensures
            steps@ == release_order(self@.messenger, self@.handle),
    {
        release_steps(self.inner.debug_utils, self.inner.handle)
    }

    /// Asks the driver behind `entry` what it offers: the answer to the
    /// creation's `Query`.
    ///
    /// The event is what `offer` makes of the driver's two answers, whatever
    /// they are. So it is one that the creation awaits: either the names of
    /// the layers and extensions, none of which holds a zero byte, or the
    /// code of the failure, which is not that of success.
    pub fn query(entry: &ash::Entry) -> (event: Event)
        ensures
            exists|layers: Answer, extensions: Answer|
                is_answer(layers) && is_answer(extensions) && event@ == #[trigger] offered(
                    layers,
                    extensions,
                ),
            event@ is Offered || event@ is QueryFailed,
            event@ matches EventView::Offered(supported) ==> free_of_zero(supported.layers)
                && free_of_zero(supported.extensions),
            event@ matches EventView::QueryFailed(code) ==> code != 0,
    {
        let layers = layer_buffers(entry);
        let extensions = extension_buffers(entry);
        proof {
            answers_are_answers(layers);
            answers_are_answers(extensions);
        }
        offer(layers, extensions)
    }

    /// Whether the driver behind `entry` offers the layer of that name.
    ///
    /// The result is what `find` makes of the driver's answer, whatever it
    /// is. So a name that holds a zero byte is not offered, and a failure is
    /// the driver's own, at its place in the taxonomy.
    pub fn has_layer(name: &Vec<u8>, entry: &ash::Entry) -> (found: core::result::Result<
        bool,
        Error,
    >)
        ensures
            exists|answer: Answer| is_answer(answer) && found == #[trigger] found_in(name@, answer),
            found == Ok::<bool, Error>(true) ==> forall|j: int|
                0 <= j < name.len() ==> name[j] != 0,
            found matches Err(error) ==> exists|code: i32| code != 0 && error == error_of(code),
    {
        let answer = layer_buffers(entry);
        proof {
            answers_are_answers(answer);
        }
        find(name, answer)
    }

    /// Whether the driver behind `entry` offers the extension of that name.
    ///
    /// The result is what `find` makes of the driver's answer, whatever it
    /// is. So a name that holds a zero byte is not offered, and a failure is
    /// the driver's own, at its place in the taxonomy.
    pub fn has_extension(name: &Vec<u8>, entry: &ash::Entry) -> (found: core::result::Result<
        bool,
        Error,
    >)
        ensures
            exists|answer: Answer| is_answer(answer) && found == #[trigger] found_in(name@, answer),
            found == Ok::<bool, Error>(true) ==> forall|j: int|
                0 <= j < name.len() ==> name[j] != 0,
            found matches Err(error) ==> exists|code: i32| code != 0 && error == error_of(code),
    {
        let answer = extension_buffers(entry);
        proof {
            answers_are_answers(answer);
        }
        find(name, answer)
    }
}

} // verus!
