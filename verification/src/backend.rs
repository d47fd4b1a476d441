//! The two platforms a renderer can be built for, and what each asks of its surface.

use vstd::prelude::*;

verus! {

/// The platform that provides the drawing surface and the graphics context.
///
/// A renderer is made for one backend and keeps it for life.
#[derive(Clone, Copy, Debug, PartialEq, Eq, Structural)]
pub enum Backend {
    /// A native window with an OpenGL core-profile context.
    Desktop,
    /// A canvas element of a web page with a WebGL2 context.
    Browser,
}

/// Width of the desktop window when it opens, in pixels.
pub const WINDOW_WIDTH: u32 = 1024;

/// Height of the desktop window when it opens, in pixels.
pub const WINDOW_HEIGHT: u32 = 769;

/// Major version of the OpenGL context requested on the desktop.
pub const CONTEXT_MAJOR_VERSION: u8 = 3;

/// Minor version of the OpenGL context requested on the desktop.
pub const CONTEXT_MINOR_VERSION: u8 = 0;

impl Backend {
    /// The first line of every shader handed to this backend's compiler.
    pub open spec fn version_line(self) -> Seq<char> {
        match self {
            Backend::Desktop => "#version 330"@,
            Backend::Browser => "#version 300 es"@,
        }
    }

    /// Whether a finished frame reaches the screen only by an explicit swap of the
    /// window's buffers. In a browser the page's own frame loop presents the canvas.
    pub open spec fn presents_by_swap(self) -> bool {
        self == Backend::Desktop
    }

    /// The GLSL version directive of this backend.
    pub fn version_header(self) -> (header: &'static str)
        ensures
            header@ == self.version_line(),
    {
        match self {
            Backend::Desktop => "#version 330",
            Backend::Browser => "#version 300 es",
        }
    }

    /// Tells whether `swap_buffers` has anything to do on this backend.
    pub fn swaps_window(self) -> (swaps: bool)
        ensures
            swaps == self.presents_by_swap(),
    {
        match self {
            Backend::Desktop => true,
            Backend::Browser => false,
        }
    }
}

/// Title of the desktop window.
pub fn window_title() -> (title: &'static str)
    ensures
        title@ == "Hello triangle!"@,
{
    "Hello triangle!"
}

/// Identifier of the canvas element that the browser backend draws into.
pub fn canvas_id() -> (id: &'static str)
    ensures
        id@ == "canvas"@,
{
    "canvas"
}

/// The kind of context asked of the canvas.
pub fn canvas_context() -> (kind: &'static str)
    ensures
        kind@ == "webgl2"@,
{
    "webgl2"
}

} // verus!
