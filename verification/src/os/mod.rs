//! The window that a surface presents to.
//!
//! The window itself is made and driven elsewhere; here it is the pair of
//! native handles by which the graphics driver knows it.

use vstd::prelude::*;

pub mod windows;

verus! {

pub struct Window(pub windows::Window);

impl Window {
    pub fn new(platform: windows::Window) -> (window: Self)
        ensures
            window.0 == platform,
    {
        Self(platform)
    }

    /// Returns access to the underlying platform specific window.
    pub fn platform_impl(&self) -> (platform: &windows::Window)
        ensures
            *platform == self.0,
    {
        &self.0
    }
}

} // verus!
