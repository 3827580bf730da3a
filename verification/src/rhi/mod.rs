//! The render hardware interface: one uniform API in front of the native
//! graphics backends that are compiled in.

use vstd::prelude::*;

pub mod adapter;
pub mod capability;
pub mod creation;
pub mod instance;
pub mod resource;
pub mod surface;
pub mod vk;

pub use adapter::{Adapter, AdapterApi, AdapterInfo};
pub use instance::{ApplicationInfo, Instance, InstanceInfo};
pub use resource::{
    Buffer, BufferApi, Resource, ResourceDimension, Texture, TextureDimension, VertexBuffer,
    VertexBufferView,
};
pub use surface::{Surface, SurfaceApi};

verus! {

/// The native graphics APIs that are compiled in, one tag each.
#[derive(Debug, Clone, Copy, PartialEq, Eq, Structural)]
pub enum Backend {
    Vulkan,
}

/// Everything that can go wrong behind this interface.
#[derive(Debug, Clone, Copy, PartialEq, Eq, Structural)]
pub enum Error {
    /// Failed to allocate host memory.
    OutOfHostMemory,
    /// Failed to allocate device memory.
    OutOfDeviceMemory,
    /// Device lost.
    DeviceLost,
    /// A layer was not present.
    LayerNotPresent,
    /// An extension was not present.
    ExtensionNotPresent,
    /// A feature was not present.
    FeatureNotPresent,
    /// Two objects that belong to different backends were used together.
    BackendMismatch,
    /// The requested backend is not supported.
    NotSupported,
    /// The call failed due to invalid arguments or implementation specific reasons.
    Unknown,
}

pub type Result<T> = core::result::Result<T, Error>;

/// One native object to destroy.
#[derive(Debug, Clone, Copy, PartialEq, Eq, Structural)]
pub enum Release {
    /// The messenger of the diagnostics channel, by its handle.
    Messenger(u64),
    /// A presentation surface, by its handle.
    Surface(u64),
    /// The native instance, by its handle.
    Instance(u64),
}

/// The order in which an instance's native objects are destroyed: the
/// messenger, if there is one, and then the instance.
pub open spec fn release_order(messenger: Option<u64>, instance: u64) -> Seq<Release> {
    match messenger {
        Some(messenger) => seq![Release::Messenger(messenger), Release::Instance(instance)],
        None => seq![Release::Instance(instance)],
    }
}

/// The instance is destroyed last, and a messenger before it.
pub proof fn instance_is_released_last(messenger: Option<u64>, instance: u64)
    ensures
        release_order(messenger, instance).last() == Release::Instance(instance),
        forall|i: int|
            0 <= i < release_order(messenger, instance).len() - 1 ==> release_order(
                messenger,
                instance,
            )[i] == Release::Messenger(messenger->Some_0) && messenger is Some,
        messenger is Some ==> release_order(messenger, instance).first() == Release::Messenger(
            messenger->Some_0,
        ),
{
}

/// The native objects of an instance in the order of their destruction.
pub fn release_steps(messenger: Option<u64>, instance: u64) -> (steps: Vec<Release>)
    ensures
        steps@ == release_order(messenger, instance),
{
    let mut steps: Vec<Release> = Vec::new();
    match messenger {
        Some(messenger) => {
            steps.push(Release::Messenger(messenger));
        },
        None => {},
    }
    steps.push(Release::Instance(instance));
    assert(steps@ =~= release_order(messenger, instance));
    steps
}

/// What a backend's own failure value stands for in the taxonomy.
pub trait IntoError: Sized {
    spec fn error(self) -> Error;

    fn into_error(self) -> (error: Error)
        ensures
            error == self.error(),
    ;
}

/// What a backend's own outcome stands for: its value, or its failure's
/// place in the taxonomy.
pub trait IntoResult<T>: Sized {
    spec fn result(self) -> Result<T>;

    fn into_result(self) -> (result: Result<T>)
        ensures
            result == self.result(),
    ;
}

} // verus!
