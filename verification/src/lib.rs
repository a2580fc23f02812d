//! Safe, contract-checked layer over the EGL native graphics interface.
//!
//! Every native entry point is reached through the [`Backend`] trait, which
//! speaks plain values: handles as `usize` (zero standing for the null
//! handle), attribute codes and attribute values as `i32`, and strings as
//! byte vectors.  The library interprets each raw outcome into a typed
//! result, owns the handle bookkeeping, and builds the attribute lists for
//! configuration selection.  A verified in-crate mock backend
//! ([`MockBackend`]) implements the trait for testing; a production build
//! supplies a backend that forwards to the installed native library.

use vstd::prelude::*;

pub mod backend;
pub mod calls;
pub mod config_filter;
pub mod context;
pub mod display;
pub mod egl;
pub mod error;
pub mod frame_buffer_config;
pub mod mock;
pub mod utf8;
pub mod version;
pub mod window_surface;

pub use backend::Backend;
pub use config_filter::ConfigFilterRef;
pub use context::Context;
pub use display::{ContextClientVersion, Display};
pub use error::{EglCallError, Error};
pub use frame_buffer_config::FrameBufferConfigRef;
pub use mock::{MockBackend, MockConfig};
pub use utf8::{decode_native_text, utf8_all_ascii, utf8_valid, validate_utf8};
pub use version::Version;
pub use window_surface::Surface;

verus! {

/// Buffer type reported for a frame buffer configuration: either an RGB
/// color buffer or a luminance color buffer.
#[derive(Copy, Clone, Debug, PartialEq, Eq, Structural)]
pub enum ColorBufferType {
    Rgb,
    Luminance,
}

impl ColorBufferType {
    /// The native code for this buffer type.
    pub fn raw(self) -> (r: i32)
        ensures
            r == self.spec_raw(),
    {
        match self {
            ColorBufferType::Rgb => egl::EGL_RGB_BUFFER,
            ColorBufferType::Luminance => egl::EGL_LUMINANCE_BUFFER,
        }
    }

    /// The native code for this buffer type.
    pub open spec fn spec_raw(self) -> i32 {
        match self {
            ColorBufferType::Rgb => egl::EGL_RGB_BUFFER,
            ColorBufferType::Luminance => egl::EGL_LUMINANCE_BUFFER,
        }
    }

    /// Reads a native attribute value back into the typed form; values
    /// outside the two codes the native specification defines give `None`.
    pub fn from_raw(value: i32) -> (r: Option<ColorBufferType>)
        ensures
            r matches Some(t) ==> t.spec_raw() == value,
            r is None <==> value != egl::EGL_RGB_BUFFER && value != egl::EGL_LUMINANCE_BUFFER,
    {
        if value == egl::EGL_RGB_BUFFER {
            Some(ColorBufferType::Rgb)
        } else if value == egl::EGL_LUMINANCE_BUFFER {
            Some(ColorBufferType::Luminance)
        } else {
            None
        }
    }
}

/// Performance caveat reported for a frame buffer configuration.
#[derive(Copy, Clone, Debug, PartialEq, Eq, Structural)]
pub enum ConfigCaveat {
    NoCaveat,
    Slow,
    NonConformant,
}

impl ConfigCaveat {
    /// The native code for this caveat.
    pub fn raw(self) -> (r: i32)
        ensures
            r == self.spec_raw(),
    {
        match self {
            ConfigCaveat::NoCaveat => egl::EGL_NONE,
            ConfigCaveat::Slow => egl::EGL_SLOW_CONFIG,
            ConfigCaveat::NonConformant => egl::EGL_NON_CONFORMANT_CONFIG,
        }
    }

    /// The native code for this caveat.
    pub open spec fn spec_raw(self) -> i32 {
        match self {
            ConfigCaveat::NoCaveat => egl::EGL_NONE,
            ConfigCaveat::Slow => egl::EGL_SLOW_CONFIG,
            ConfigCaveat::NonConformant => egl::EGL_NON_CONFORMANT_CONFIG,
        }
    }

    /// Reads a native attribute value back into the typed form; values
    /// outside the three codes the native specification defines give `None`.
    pub fn from_raw(value: i32) -> (r: Option<ConfigCaveat>)
        ensures
            r matches Some(t) ==> t.spec_raw() == value,
            r is None <==> value != egl::EGL_NONE && value != egl::EGL_SLOW_CONFIG
                && value != egl::EGL_NON_CONFORMANT_CONFIG,
    {
        if value == egl::EGL_NONE {
            Some(ConfigCaveat::NoCaveat)
        } else if value == egl::EGL_SLOW_CONFIG {
            Some(ConfigCaveat::Slow)
        } else if value == egl::EGL_NON_CONFORMANT_CONFIG {
            Some(ConfigCaveat::NonConformant)
        } else {
            None
        }
    }
}

/// Transparency kind reported for a frame buffer configuration.
#[derive(Copy, Clone, Debug, PartialEq, Eq, Structural)]
pub enum TransparentType {
    Opaque,
    TransparentRgb,
}

impl TransparentType {
    /// The native code for this transparency kind.
    pub fn raw(self) -> (r: i32)
        ensures
            r == self.spec_raw(),
    {
        match self {
            TransparentType::Opaque => egl::EGL_NONE,
            TransparentType::TransparentRgb => egl::EGL_TRANSPARENT_RGB,
        }
    }

    /// The native code for this transparency kind.
    pub open spec fn spec_raw(self) -> i32 {
        match self {
            TransparentType::Opaque => egl::EGL_NONE,
            TransparentType::TransparentRgb => egl::EGL_TRANSPARENT_RGB,
        }
    }

    /// Reads a native attribute value back into the typed form; values
    /// outside the two codes the native specification defines give `None`.
    pub fn from_raw(value: i32) -> (r: Option<TransparentType>)
        ensures
            r matches Some(t) ==> t.spec_raw() == value,
            r is None <==> value != egl::EGL_NONE && value != egl::EGL_TRANSPARENT_RGB,
    {
        if value == egl::EGL_NONE {
            Some(TransparentType::Opaque)
        } else if value == egl::EGL_TRANSPARENT_RGB {
            Some(TransparentType::TransparentRgb)
        } else {
            None
        }
    }
}

/// Client API mask for the conformance and renderable-type criteria.
///
/// The bit layout is fixed by the native specification.
#[derive(Copy, Clone, Debug, PartialEq, Eq, Structural)]
pub struct RenderableType {
    pub bits: i32,
}

impl RenderableType {
    /// A mask with no bit set.
    pub fn empty() -> (r: RenderableType)
        ensures
            r.bits == 0,
    {
        RenderableType { bits: 0 }
    }

    /// The OpenGL bit.
    pub fn opengl() -> (r: RenderableType)
        ensures
            r.bits == 0x0008,
    {
        RenderableType { bits: 0x0008 }
    }

    /// The OpenGL ES 1.x bit.
    pub fn opengl_es() -> (r: RenderableType)
        ensures
            r.bits == 0x0001,
    {
        RenderableType { bits: 0x0001 }
    }

    /// The OpenGL ES 2 bit.
    pub fn opengl_es2() -> (r: RenderableType)
        ensures
            r.bits == 0x0004,
    {
        RenderableType { bits: 0x0004 }
    }

    /// The OpenGL ES 3 bit.
    pub fn opengl_es3() -> (r: RenderableType)
        ensures
            r.bits == 0x0040,
    {
        RenderableType { bits: 0x0040 }
    }

    /// The OpenVG bit.
    pub fn openvg() -> (r: RenderableType)
        ensures
            r.bits == 0x0002,
    {
        RenderableType { bits: 0x0002 }
    }

    /// The raw mask value handed to the native library.
    pub fn bits(self) -> (r: i32)
        ensures
            r == self.bits,
    {
        self.bits
    }

    /// Keeps only the bits the native specification defines for this mask.
    pub fn from_bits_truncate(value: i32) -> (r: RenderableType)
        ensures
            r.bits == value & 0x004F,
    {
        RenderableType { bits: value & 0x004F }
    }

    /// The mask holding every bit set in either operand.
    pub fn union(self, other: RenderableType) -> (r: RenderableType)
        ensures
            r.bits == self.bits | other.bits,
    {
        RenderableType { bits: self.bits | other.bits }
    }

    /// Whether every bit of `other` is set in `self`.
    pub fn contains(self, other: RenderableType) -> (r: bool)
        ensures
            r == (self.bits & other.bits == other.bits),
    {
        self.bits & other.bits == other.bits
    }
}

/// Surface capability mask for the surface-type criterion.
///
/// The bit layout is fixed by the native specification.
#[derive(Copy, Clone, Debug, PartialEq, Eq, Structural)]
pub struct SurfaceType {
    pub bits: i32,
}

impl SurfaceType {
    /// A mask with no bit set.
    pub fn empty() -> (r: SurfaceType)
        ensures
            r.bits == 0,
    {
        SurfaceType { bits: 0 }
    }

    /// The pixel-buffer surface bit.
    pub fn pbuffer() -> (r: SurfaceType)
        ensures
            r.bits == 0x0001,
    {
        SurfaceType { bits: 0x0001 }
    }

    /// The pixmap surface bit.
    pub fn pixmap() -> (r: SurfaceType)
        ensures
            r.bits == 0x0002,
    {
        SurfaceType { bits: 0x0002 }
    }

    /// The window surface bit.
    pub fn window() -> (r: SurfaceType)
        ensures
            r.bits == 0x0004,
    {
        SurfaceType { bits: 0x0004 }
    }

    /// The linear OpenVG colorspace bit.
    pub fn vg_colorspace_linear() -> (r: SurfaceType)
        ensures
            r.bits == 0x0020,
    {
        SurfaceType { bits: 0x0020 }
    }

    /// The premultiplied OpenVG alpha bit.
    pub fn vg_alpha_format_pre() -> (r: SurfaceType)
        ensures
            r.bits == 0x0040,
    {
        SurfaceType { bits: 0x0040 }
    }

    /// The box multisample resolve bit.
    pub fn multisample_resolve_box() -> (r: SurfaceType)
        ensures
            r.bits == 0x0200,
    {
        SurfaceType { bits: 0x0200 }
    }

    /// The preserved swap behavior bit.
    pub fn swap_behavior_preserved() -> (r: SurfaceType)
        ensures
            r.bits == 0x0400,
    {
        SurfaceType { bits: 0x0400 }
    }

    /// The raw mask value handed to the native library.
    pub fn bits(self) -> (r: i32)
        ensures
            r == self.bits,
    {
        self.bits
    }

    /// Keeps only the bits the native specification defines for this mask.
    pub fn from_bits_truncate(value: i32) -> (r: SurfaceType)
        ensures
            r.bits == value & 0x0667,
    {
        SurfaceType { bits: value & 0x0667 }
    }

    /// The mask holding every bit set in either operand.
    pub fn union(self, other: SurfaceType) -> (r: SurfaceType)
        ensures
            r.bits == self.bits | other.bits,
    {
        SurfaceType { bits: self.bits | other.bits }
    }

    /// Whether every bit of `other` is set in `self`.
    pub fn contains(self, other: SurfaceType) -> (r: bool)
        ensures
            r == (self.bits & other.bits == other.bits),
    {
        self.bits & other.bits == other.bits
    }
}

/// Queries the version string the native library reports without a display,
/// decoded as text.
///
/// Fails with the query-string tag when the native call reports failure, and
/// with the text-decoding error when the reported bytes are not valid UTF-8.
pub fn query_version<B: Backend>(backend: &mut B) -> (r: Result<String, Error>)
    ensures
        r matches Err(e) ==> e == Error::Egl(EglCallError::QueryString)
            || e == Error::NonUtf8StringReceived,
{
    match error::check_native_string(
        backend.query_string(egl::EGL_NO_DISPLAY, egl::EGL_VERSION),
        EglCallError::QueryString,
    ) {
        Ok(bytes) => decode_native_text(bytes),
        Err(e) => Err(e),
    }
}

/// Queries the client extension string the native library reports without a
/// display, decoded as text.
///
/// Fails with the query-string tag when the native call reports failure, and
/// with the text-decoding error when the reported bytes are not valid UTF-8.
pub fn query_extensions<B: Backend>(backend: &mut B) -> (r: Result<String, Error>)
    ensures
        r matches Err(e) ==> e == Error::Egl(EglCallError::QueryString)
            || e == Error::NonUtf8StringReceived,
{
    match error::check_native_string(
        backend.query_string(egl::EGL_NO_DISPLAY, egl::EGL_EXTENSIONS),
        EglCallError::QueryString,
    ) {
        Ok(bytes) => decode_native_text(bytes),
        Err(e) => Err(e),
    }
}

/// Retrieves a native function pointer, as a plain address value, for an
/// extension or rendering entry point named by its exact, case-sensitive
/// specification name.
///
/// The native library resolves the name by exact string match and reports
/// zero for an unknown name.  The address's type and calling convention
/// are the caller's responsibility.
pub fn get_proc_address<B: Backend>(backend: &mut B, procname: &str) -> (r: usize) {
    backend.get_proc_address(procname)
}

} // verus!
