//! The surface: a presentation target bound to a window and to the
//! instance that made it.

use vstd::prelude::*;

use super::vk::VkSurface;
use super::{Backend, Error, Release};

verus! {

pub trait SurfaceApi {

}

/// What a surface is, whatever its backend.
pub struct SurfaceView {
    pub backend: Backend,
    /// The handle of the native surface.
    pub handle: u64,
    /// The handle of the native instance that made the surface.
    pub instance: u64,
}

/// A presentation target. It borrows the instance that made it and the
/// window it presents to, so neither can be given up before it.
pub enum Surface<'a> {
    Vk(VkSurface<'a>),
}

impl<'a> View for Surface<'a> {
    type V = SurfaceView;

    open spec fn view(&self) -> SurfaceView {
        match self {
            Surface::Vk(surface) => surface@,
        }
    }
}

/// A surface as the library hands it out.
pub open spec fn surface_view(made: core::result::Result<Surface, Error>) -> core::result::Result<
    SurfaceView,
    Error,
> {
    match made {
        Ok(surface) => Ok(surface@),
        Err(error) => Err(error),
    }
}

impl<'a> SurfaceApi for Surface<'a> {

}

impl<'a> Surface<'a> {
    /// Returns the backend that made the surface.
    pub fn backend(&self) -> (backend: Backend)
        ensures
            backend == self@.backend,
    {
        match self {
            Surface::Vk(surface) => surface.backend(),
        }
    }

    /// Gives the surface up: the native object to destroy.
    pub fn release(self) -> (step: Release)
        ensures
            step == Release::Surface(self@.handle),
    {
        match self {
            Surface::Vk(surface) => surface.release(),
        }
    }
}

} // verus!
