//! A Win32 window, by its handles.

use vstd::prelude::*;

verus! {

pub struct Window {
    hinstance: isize,
    hwnd: isize,
}

impl Window {
    #[verifier::type_invariant]
    spec fn well_formed(self) -> bool {
        self.hwnd != 0
    }

    /// The handle of the module that made the window.
    pub closed spec fn module(self) -> isize {
        self.hinstance
    }

    /// The handle of the window.
    pub closed spec fn window(self) -> isize {
        self.hwnd
    }

    /// Takes the handles that the making of a window returned. A window
    /// handle of 0 says that none was made.
    pub fn new(hinstance: isize, hwnd: isize) -> (made: Result<Self, ()>)
        ensures
            hwnd == 0 ==> made is Err,
            hwnd != 0 ==> made is Ok && made->Ok_0.module() == hinstance && made->Ok_0.window()
                == hwnd,
    {
        if hwnd == 0 {
            return Err(());
        }
        Ok(Self { hinstance, hwnd })
    }

    pub fn hinstance(&self) -> (hinstance: &isize)
        ensures
            *hinstance == self.module(),
    {
        &self.hinstance
    }

    pub fn hwnd(&self) -> (hwnd: &isize)
        ensures
            *hwnd == self.window(),
            *hwnd != 0,
    {
        proof {
            use_type_invariant(self);
        }
        &self.hwnd
    }
}

} // verus!
