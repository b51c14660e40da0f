//! What the window of the Servo backend tells the media player about its
//! graphics: which flavour of OpenGL it speaks, and through which context
//! and display.
//!
//! The graphics connection itself is not looked into here. These functions
//! take what it reports and decide.

use vstd::prelude::*;

verus! {

/// The family of the graphics interface in use.
#[derive(Clone, Copy, Debug, PartialEq, Eq, Structural)]
pub enum GLApi {
    /// Desktop OpenGL.
    GL,
    /// OpenGL for embedded systems.
    GLES,
}

/// The version of the graphics interface that a context was made for.
#[derive(Clone, Copy, Debug, PartialEq, Eq, Structural)]
pub struct GLVersion {
    pub major: u8,
    pub minor: u8,
}

/// The flavour of OpenGL that the media player is to use.
#[derive(Clone, Copy, Debug, PartialEq, Eq, Structural)]
pub enum GlApi {
    OpenGL,
    OpenGL3,
    Gles1,
    Gles2,
}

/// The graphics context that the media player may share.
#[derive(Clone, Copy, Debug, PartialEq, Eq, Structural)]
pub enum GlContext {
    /// None that the player could use.
    Unknown,
    /// An EGL context, by its address.
    Egl(usize),
}

/// The native display that a graphics connection runs on.
#[derive(Clone, Copy, Debug, PartialEq, Eq, Structural)]
pub enum NativeDisplay {
    /// None that the player could use.
    Unknown,
    /// An EGL display, by its address.
    Egl(usize),
    /// An X11 display, by its address.
    X11(usize),
}

/// The flavour of OpenGL for an interface family and a version: desktop
/// OpenGL counts as version 3 from major 3 with minor 2 on, the embedded
/// kind as version 2 from major 2 on.
pub open spec fn gl_api_of(api: GLApi, version: GLVersion) -> GlApi {
    match api {
        GLApi::GL => if version.major >= 3 && version.minor >= 2 {
            GlApi::OpenGL3
        } else {
            GlApi::OpenGL
        },
        GLApi::GLES => if version.major > 1 {
            GlApi::Gles2
        } else {
            GlApi::Gles1
        },
    }
}

/// The flavour of OpenGL that the media player is to use.
pub fn get_gl_api(api: GLApi, version: GLVersion) -> (flavour: GlApi)
    ensures
        flavour == gl_api_of(api, version),
{
    match api {
        GLApi::GL => if version.major >= 3 && version.minor >= 2 {
            GlApi::OpenGL3
        } else {
            GlApi::OpenGL
        },
        GLApi::GLES => if version.major > 1 {
            GlApi::Gles2
        } else {
            GlApi::Gles1
        },
    }
}

/// The graphics context for the media player: the EGL context of the
/// window's surface where video through OpenGL is switched on, none where
/// it is off.
///
/// `egl_context` is the address of the EGL context of the surface, if the
/// graphics backend in use has one. With video through OpenGL switched on,
/// a backend without one is not supported.
pub fn get_gl_context(glvideo_enabled: bool, egl_context: Option<usize>) -> (context: GlContext)
    requires
        glvideo_enabled ==> egl_context is Some,
    ensures
        context == (if glvideo_enabled {
            GlContext::Egl(egl_context->Some_0)
        } else {
            GlContext::Unknown
        }),
{
    if !glvideo_enabled {
        return GlContext::Unknown;
    }
    match egl_context {
        Some(address) => GlContext::Egl(address),
        None => GlContext::Unknown,
    }
}

/// The native display for the media player: the display of the graphics
/// connection where video through OpenGL is switched on, none where it is
/// off.
///
/// `display` is the display of the connection, if the graphics backend in
/// use has one of a known kind. With video through OpenGL switched on, a
/// backend without one is not supported.
pub fn get_native_display(glvideo_enabled: bool, display: NativeDisplay) -> (native: NativeDisplay)
    requires
        glvideo_enabled ==> display !is Unknown,
    ensures
        native == (if glvideo_enabled {
            display
        } else {
            NativeDisplay::Unknown
        }),
{
    if !glvideo_enabled {
        return NativeDisplay::Unknown;
    }
    display
}

} // verus!
