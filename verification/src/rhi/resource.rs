//! Resources: allocations of GPU memory, and the typed projections of
//! them.

use vstd::prelude::*;

use super::Backend;

verus! {

/// What a resource holds.
#[derive(Debug, Clone, Copy, PartialEq, Eq, Structural)]
pub enum ResourceDimension {
    Buffer,
    Texture1D,
    Texture2D,
    Texture3D,
}

/// How many dimensions a texture has.
#[derive(Debug, Clone, Copy, PartialEq, Eq, Structural)]
pub enum TextureDimension {
    Texture1D,
    Texture2D,
    Texture3D,
}

/// An allocation of the Vulkan backend.
#[derive(Debug, Clone, Copy, PartialEq, Eq, Structural)]
pub struct VkResource {
    /// The handle of the native allocation.
    pub handle: u64,
    /// What the allocation holds.
    pub dimension: ResourceDimension,
    /// The size of the allocation in bytes.
    pub size: u64,
}

/// An opaque handle to an allocation of GPU memory.
#[derive(Debug, Clone, Copy, PartialEq, Eq, Structural)]
pub enum Resource {
    Vulkan(VkResource),
}

impl Resource {
    pub open spec fn spec_dimension(self) -> ResourceDimension {
        match self {
            Resource::Vulkan(resource) => resource.dimension,
        }
    }

    pub open spec fn spec_size(self) -> u64 {
        match self {
            Resource::Vulkan(resource) => resource.size,
        }
    }

    pub open spec fn spec_backend(self) -> Backend {
        match self {
            Resource::Vulkan(_) => Backend::Vulkan,
        }
    }

    /// Returns the backend that made the allocation.
    #[verifier::when_used_as_spec(spec_backend)]
    pub fn backend(self) -> (backend: Backend)
        ensures
            backend == self.spec_backend(),
    {
        match self {
            Resource::Vulkan(_) => Backend::Vulkan,
        }
    }

    /// Returns what the allocation holds.
    #[verifier::when_used_as_spec(spec_dimension)]
    pub fn dimension(self) -> (dimension: ResourceDimension)
        ensures
            dimension == self.spec_dimension(),
    {
        match self {
            Resource::Vulkan(resource) => resource.dimension,
        }
    }

    /// Returns the size of the allocation in bytes.
    #[verifier::when_used_as_spec(spec_size)]
    pub fn size(self) -> (size: u64)
        ensures
            size == self.spec_size(),
    {
        match self {
            Resource::Vulkan(resource) => resource.size,
        }
    }
}

pub trait BufferApi {

}

/// An owner of a contiguous array of GPU memory: a resource that holds a
/// buffer.
pub struct Buffer(Resource);

impl BufferApi for Buffer {

}

impl Buffer {
    #[verifier::type_invariant]
    spec fn well_formed(self) -> bool {
        self.0.dimension() == ResourceDimension::Buffer
    }

    /// The resource that the buffer is.
    pub closed spec fn resource(self) -> Resource {
        self.0
    }

    /// Takes a resource for the buffer that it holds. A resource that
    /// holds a texture is no buffer, which is no failure.
    pub fn new(resource: Resource) -> (buffer: Option<Self>)
        ensures
            resource.dimension() == ResourceDimension::Buffer ==> buffer is Some
                && buffer->Some_0.resource() == resource,
            resource.dimension() != ResourceDimension::Buffer ==> buffer is None,
    {
        match resource.dimension() {
            ResourceDimension::Buffer => Some(Self::new_unchecked(resource)),
            _ => None,
        }
    }

    /// Takes a resource that is known to hold a buffer.
    pub fn new_unchecked(resource: Resource) -> (buffer: Self)
        requires
            resource.dimension() == ResourceDimension::Buffer,
        ensures
            buffer.resource() == resource,
    {
        Self(resource)
    }

    /// Returns the resource that the buffer is, which holds a buffer.
    pub fn as_resource(&self) -> (resource: Resource)
        ensures
            resource == self.resource(),
            resource.dimension() == ResourceDimension::Buffer,
    {
        proof {
            use_type_invariant(self);
        }
        self.0
    }
}

/// A resource that holds a texture.
pub struct Texture(Resource);

impl Texture {
    #[verifier::type_invariant]
    spec fn well_formed(self) -> bool {
        self.0.dimension() != ResourceDimension::Buffer
    }

    /// The resource that the texture is.
    pub closed spec fn resource(self) -> Resource {
        self.0
    }

    /// Takes a resource for the texture that it holds. A resource that
    /// holds a buffer is no texture, which is no failure.
    pub fn new(resource: Resource) -> (texture: Option<Self>)
        ensures
            resource.dimension() != ResourceDimension::Buffer ==> texture is Some
                && texture->Some_0.resource() == resource,
            resource.dimension() == ResourceDimension::Buffer ==> texture is None,
    {
        match resource.dimension() {
            ResourceDimension::Buffer => None,
            _ => Some(Self(resource)),
        }
    }

    /// Returns how many dimensions the texture has.
    pub fn dimension(&self) -> (dimension: TextureDimension)
        ensures
            self.resource().dimension() == match dimension {
                TextureDimension::Texture1D => ResourceDimension::Texture1D,
                TextureDimension::Texture2D => ResourceDimension::Texture2D,
                TextureDimension::Texture3D => ResourceDimension::Texture3D,
            },
    {
        proof {
            use_type_invariant(self);
        }
        match self.0.dimension() {
            ResourceDimension::Texture1D => TextureDimension::Texture1D,
            ResourceDimension::Texture2D => TextureDimension::Texture2D,
            _ => TextureDimension::Texture3D,
        }
    }
}

/// A view into a vertex buffer: so many vertices of so many bytes each.
#[derive(Debug, Clone, Copy, PartialEq, Eq, Structural)]
pub struct VertexBufferView {
    /// The number of vertices.
    pub len: usize,
    /// The size of one vertex in bytes.
    pub stride: usize,
}

/// Whether a view lies within a buffer of that size.
pub open spec fn fits(view: VertexBufferView, size: u64) -> bool {
    view.len * view.stride <= size
}

/// A projection of a buffer as vertices. It owns nothing: it borrows the
/// buffer and the view, and cannot outlive either.
pub struct VertexBuffer<'a> {
    ptr: &'a Buffer,
    view: &'a VertexBufferView,
}

impl<'a> VertexBuffer<'a> {
    #[verifier::type_invariant]
    spec fn well_formed(self) -> bool {
        fits(*self.view, self.ptr.resource().size())
    }

    /// The buffer that is projected.
    pub closed spec fn owner(self) -> Buffer {
        *self.ptr
    }

    /// The view through which the buffer is seen.
    pub closed spec fn descriptor(self) -> VertexBufferView {
        *self.view
    }

    /// Projects a buffer through a view that lies within it, and none
    /// through a view that does not.
    pub fn new(buffer: &'a Buffer, view: &'a VertexBufferView) -> (projected: Option<Self>)
        ensures
            fits(*view, buffer.resource().size()) ==> projected is Some
                && projected->Some_0.owner() == *buffer && projected->Some_0.descriptor()
                == *view,
            !fits(*view, buffer.resource().size()) ==> projected is None,
    {
        let size: u64 = buffer.as_resource().size();
        let len: u128 = view.len as u128;
        let stride: u128 = view.stride as u128;
        assert(len * stride <= 0xffff_ffff_ffff_ffff * 0xffff_ffff_ffff_ffff) by (nonlinear_arith)
            requires
                len <= 0xffff_ffff_ffff_ffff,
                stride <= 0xffff_ffff_ffff_ffff,
        ;
        if len * stride <= size as u128 {
            Some(Self::from_view(buffer, view))
        } else {
            None
        }
    }

    /// Projects a buffer through a view that is known to lie within it.
    pub fn from_view(buffer: &'a Buffer, view: &'a VertexBufferView) -> (projected: Self)
        requires
            fits(*view, buffer.resource().size()),
        ensures
            projected.owner() == *buffer,
            projected.descriptor() == *view,
    {
        Self { ptr: buffer, view }
    }

    pub fn as_buffer(&self) -> (buffer: &'a Buffer)
        ensures
            *buffer == self.owner(),
    {
        self.ptr
    }

    /// Returns the number of vertices.
    pub fn len(&self) -> (len: usize)
        ensures
            len == self.descriptor().len,
            fits(self.descriptor(), self.owner().resource().size()),
    {
        proof {
            use_type_invariant(self);
        }
        self.view.len
    }

    /// Returns the size of one vertex in bytes.
    pub fn stride(&self) -> (stride: usize)
        ensures
            stride == self.descriptor().stride,
    {
        self.view.stride
    }
}

} // verus!
