//! Lightweight references to frame buffer configurations.

use vstd::prelude::*;

use crate::backend::Backend;
use crate::egl;
use crate::error::{check_native_flag, EglCallError, Error};
use crate::{ColorBufferType, ConfigCaveat, RenderableType, SurfaceType, TransparentType};

verus! {

/// Reference to one frame buffer configuration of a display.
///
/// This is not an owning value: the display owns the underlying
/// configuration table, and the reference may be copied freely.  It stays
/// meaningful only while the originating display is initialized; the
/// attribute queries report failure afterwards.
#[derive(Copy, Clone, Debug, PartialEq, Eq, Structural)]
pub struct FrameBufferConfigRef {
    display_handle: egl::EGLDisplay,
    config_handle: egl::EGLConfig,
}

impl FrameBufferConfigRef {
    /// Wraps an existing display and configuration handle pair, as handed
    /// out by an enumeration or selection call.
    pub fn from_native(display_id: egl::EGLDisplay, config_handle: egl::EGLConfig) -> (r:
        FrameBufferConfigRef)
        ensures
            r.spec_display_handle() == display_id,
            r.spec_handle() == config_handle,
    {
        FrameBufferConfigRef { display_handle: display_id, config_handle }
    }

    /// The raw configuration handle.
    pub fn handle(&self) -> (r: egl::EGLConfig)
        ensures
            r == self.spec_handle(),
    {
        self.config_handle
    }

    /// The owning display's handle.
    pub fn display_handle(&self) -> (r: egl::EGLDisplay)
        ensures
            r == self.spec_display_handle(),
    {
        self.display_handle
    }

    /// The raw configuration handle, as the contracts see it.
    pub closed spec fn spec_handle(self) -> egl::EGLConfig {
        self.config_handle
    }

    /// The owning display's handle, as the contracts see it.
    pub closed spec fn spec_display_handle(self) -> egl::EGLDisplay {
        self.display_handle
    }

    /// Queries one raw attribute value of this configuration.
    ///
    /// Fails only with the get-config-attrib tag, exactly when the native
    /// call reports failure.
    fn get_attrib<B: Backend>(&self, backend: &mut B, attribute: i32) -> (r: Result<i32, Error>)
        ensures
            r matches Err(e) ==> e == Error::Egl(EglCallError::GetConfigAttrib),
    {
        let (ok, value) = backend.get_config_attrib(
            self.display_handle,
            self.config_handle,
            attribute,
        );
        match check_native_flag(ok, EglCallError::GetConfigAttrib) {
            Ok(_) => Ok(value),
            Err(e) => Err(e),
        }
    }

    /// Queries one attribute as a nonnegative bit count.
    ///
    /// Fails only with the get-config-attrib tag, exactly when the native
    /// call reports failure.
    fn get_attrib_size<B: Backend>(&self, backend: &mut B, attribute: i32) -> (r: Result<
        u32,
        Error,
    >)
        ensures
            r matches Err(e) ==> e == Error::Egl(EglCallError::GetConfigAttrib),
    {
        match self.get_attrib(backend, attribute) {
            Ok(value) => Ok(attrib_as_size(value)),
            Err(e) => Err(e),
        }
    }

    /// Queries one attribute as a native boolean.
    ///
    /// Fails only with the get-config-attrib tag, exactly when the native
    /// call reports failure.
    fn get_attrib_bool<B: Backend>(&self, backend: &mut B, attribute: i32) -> (r: Result<
        bool,
        Error,
    >)
        ensures
            r matches Err(e) ==> e == Error::Egl(EglCallError::GetConfigAttrib),
    {
        match self.get_attrib(backend, attribute) {
            Ok(value) => Ok(attrib_as_bool(value)),
            Err(e) => Err(e),
        }
    }

    /// Number of alpha bits in the color buffer.
    pub fn alpha_size<B: Backend>(&self, backend: &mut B) -> (r: Result<u32, Error>)
        ensures
            r matches Err(e) ==> e == Error::Egl(EglCallError::GetConfigAttrib),
    {
        self.get_attrib_size(backend, egl::EGL_ALPHA_SIZE)
    }

    /// Number of bits in the alpha mask buffer.
    pub fn alpha_mask_size<B: Backend>(&self, backend: &mut B) -> (r: Result<u32, Error>)
        ensures
            r matches Err(e) ==> e == Error::Egl(EglCallError::GetConfigAttrib),
    {
        self.get_attrib_size(backend, egl::EGL_ALPHA_MASK_SIZE)
    }

    /// Whether color buffers can be bound to an RGB texture.
    pub fn bind_to_texture_rgb<B: Backend>(&self, backend: &mut B) -> (r: Result<bool, Error>)
        ensures
            r matches Err(e) ==> e == Error::Egl(EglCallError::GetConfigAttrib),
    {
        self.get_attrib_bool(backend, egl::EGL_BIND_TO_TEXTURE_RGB)
    }

    /// Whether color buffers can be bound to an RGBA texture.
    pub fn bind_to_texture_rgba<B: Backend>(&self, backend: &mut B) -> (r: Result<bool, Error>)
        ensures
            r matches Err(e) ==> e == Error::Egl(EglCallError::GetConfigAttrib),
    {
        self.get_attrib_bool(backend, egl::EGL_BIND_TO_TEXTURE_RGBA)
    }

    /// Number of blue bits in the color buffer.
    pub fn blue_size<B: Backend>(&self, backend: &mut B) -> (r: Result<u32, Error>)
        ensures
            r matches Err(e) ==> e == Error::Egl(EglCallError::GetConfigAttrib),
    {
        self.get_attrib_size(backend, egl::EGL_BLUE_SIZE)
    }

    /// Depth of the color buffer: the sum of the red, green, blue and alpha
    /// sizes.
    pub fn buffer_size<B: Backend>(&self, backend: &mut B) -> (r: Result<u32, Error>)
        ensures
            r matches Err(e) ==> e == Error::Egl(EglCallError::GetConfigAttrib),
    {
        self.get_attrib_size(backend, egl::EGL_BUFFER_SIZE)
    }

    /// The color buffer type, or `None` inside the success case when the
    /// native library reports a value outside the specified codes.
    pub fn color_buffer_type<B: Backend>(&self, backend: &mut B) -> (r: Result<
        Option<ColorBufferType>,
        Error,
    >)
        ensures
            r matches Err(e) ==> e == Error::Egl(EglCallError::GetConfigAttrib),
    {
        match self.get_attrib(backend, egl::EGL_COLOR_BUFFER_TYPE) {
            Ok(value) => Ok(ColorBufferType::from_raw(value)),
            Err(e) => Err(e),
        }
    }

    /// The configuration's caveat, or `None` inside the success case when
    /// the native library reports a value outside the specified codes.
    pub fn config_caveat<B: Backend>(&self, backend: &mut B) -> (r: Result<
        Option<ConfigCaveat>,
        Error,
    >)
        ensures
            r matches Err(e) ==> e == Error::Egl(EglCallError::GetConfigAttrib),
    {
        match self.get_attrib(backend, egl::EGL_CONFIG_CAVEAT) {
            Ok(value) => Ok(ConfigCaveat::from_raw(value)),
            Err(e) => Err(e),
        }
    }

    /// The identifier of the configuration.
    pub fn config_id<B: Backend>(&self, backend: &mut B) -> (r: Result<i32, Error>)
        ensures
            r matches Err(e) ==> e == Error::Egl(EglCallError::GetConfigAttrib),
    {
        self.get_attrib(backend, egl::EGL_CONFIG_ID)
    }

    /// Mask of client APIs for which contexts created against this
    /// configuration are conformant.
    pub fn conformant<B: Backend>(&self, backend: &mut B) -> (r: Result<RenderableType, Error>)
        ensures
            r matches Err(e) ==> e == Error::Egl(EglCallError::GetConfigAttrib),
    {
        match self.get_attrib(backend, egl::EGL_CONFORMANT) {
            Ok(value) => Ok(RenderableType::from_bits_truncate(value)),
            Err(e) => Err(e),
        }
    }

    /// Number of bits in the depth buffer.
    pub fn depth_size<B: Backend>(&self, backend: &mut B) -> (r: Result<u32, Error>)
        ensures
            r matches Err(e) ==> e == Error::Egl(EglCallError::GetConfigAttrib),
    {
        self.get_attrib_size(backend, egl::EGL_DEPTH_SIZE)
    }

    /// Number of green bits in the color buffer.
    pub fn green_size<B: Backend>(&self, backend: &mut B) -> (r: Result<u32, Error>)
        ensures
            r matches Err(e) ==> e == Error::Egl(EglCallError::GetConfigAttrib),
    {
        self.get_attrib_size(backend, egl::EGL_GREEN_SIZE)
    }

    /// The frame buffer level: zero for the default buffer, positive for
    /// overlays, negative for underlays.
    pub fn level<B: Backend>(&self, backend: &mut B) -> (r: Result<i32, Error>)
        ensures
            r matches Err(e) ==> e == Error::Egl(EglCallError::GetConfigAttrib),
    {
        self.get_attrib(backend, egl::EGL_LEVEL)
    }

    /// Number of luminance bits in the color buffer.
    pub fn luminance_size<B: Backend>(&self, backend: &mut B) -> (r: Result<u32, Error>)
        ensures
            r matches Err(e) ==> e == Error::Egl(EglCallError::GetConfigAttrib),
    {
        self.get_attrib_size(backend, egl::EGL_LUMINANCE_SIZE)
    }

    /// Maximum width of a pixel buffer surface, in pixels.
    pub fn max_pbuffer_width<B: Backend>(&self, backend: &mut B) -> (r: Result<i32, Error>)
        ensures
            r matches Err(e) ==> e == Error::Egl(EglCallError::GetConfigAttrib),
    {
        self.get_attrib(backend, egl::EGL_MAX_PBUFFER_WIDTH)
    }

    /// Maximum height of a pixel buffer surface, in pixels.
    pub fn max_pbuffer_height<B: Backend>(&self, backend: &mut B) -> (r: Result<i32, Error>)
        ensures
            r matches Err(e) ==> e == Error::Egl(EglCallError::GetConfigAttrib),
    {
        self.get_attrib(backend, egl::EGL_MAX_PBUFFER_HEIGHT)
    }

    /// Maximum size of a pixel buffer surface, in pixels.
    pub fn max_pbuffer_pixels<B: Backend>(&self, backend: &mut B) -> (r: Result<i32, Error>)
        ensures
            r matches Err(e) ==> e == Error::Egl(EglCallError::GetConfigAttrib),
    {
        self.get_attrib(backend, egl::EGL_MAX_PBUFFER_PIXELS)
    }

    /// Largest value accepted for the swap interval.
    pub fn max_swap_interval<B: Backend>(&self, backend: &mut B) -> (r: Result<i32, Error>)
        ensures
            r matches Err(e) ==> e == Error::Egl(EglCallError::GetConfigAttrib),
    {
        self.get_attrib(backend, egl::EGL_MAX_SWAP_INTERVAL)
    }

    /// Smallest value accepted for the swap interval.
    pub fn min_swap_interval<B: Backend>(&self, backend: &mut B) -> (r: Result<i32, Error>)
        ensures
            r matches Err(e) ==> e == Error::Egl(EglCallError::GetConfigAttrib),
    {
        self.get_attrib(backend, egl::EGL_MIN_SWAP_INTERVAL)
    }

    /// Whether native rendering APIs can render into surfaces of this
    /// configuration.
    pub fn native_renderable<B: Backend>(&self, backend: &mut B) -> (r: Result<bool, Error>)
        ensures
            r matches Err(e) ==> e == Error::Egl(EglCallError::GetConfigAttrib),
    {
        self.get_attrib_bool(backend, egl::EGL_NATIVE_RENDERABLE)
    }

    /// Identifier of the associated native visual.
    pub fn native_visual_id<B: Backend>(&self, backend: &mut B) -> (r: Result<i32, Error>)
        ensures
            r matches Err(e) ==> e == Error::Egl(EglCallError::GetConfigAttrib),
    {
        self.get_attrib(backend, egl::EGL_NATIVE_VISUAL_ID)
    }

    /// Kind of the associated native visual.
    pub fn native_visual_type<B: Backend>(&self, backend: &mut B) -> (r: Result<i32, Error>)
        ensures
            r matches Err(e) ==> e == Error::Egl(EglCallError::GetConfigAttrib),
    {
        self.get_attrib(backend, egl::EGL_NATIVE_VISUAL_TYPE)
    }

    /// Number of red bits in the color buffer.
    pub fn red_size<B: Backend>(&self, backend: &mut B) -> (r: Result<u32, Error>)
        ensures
            r matches Err(e) ==> e == Error::Egl(EglCallError::GetConfigAttrib),
    {
        self.get_attrib_size(backend, egl::EGL_RED_SIZE)
    }

    /// Mask of client APIs for which this configuration supports creating
    /// contexts.
    pub fn renderable_type<B: Backend>(&self, backend: &mut B) -> (r: Result<
        RenderableType,
        Error,
    >)
        ensures
            r matches Err(e) ==> e == Error::Egl(EglCallError::GetConfigAttrib),
    {
        match self.get_attrib(backend, egl::EGL_RENDERABLE_TYPE) {
            Ok(value) => Ok(RenderableType::from_bits_truncate(value)),
            Err(e) => Err(e),
        }
    }

    /// Number of multisample buffers.
    pub fn sample_buffers<B: Backend>(&self, backend: &mut B) -> (r: Result<i32, Error>)
        ensures
            r matches Err(e) ==> e == Error::Egl(EglCallError::GetConfigAttrib),
    {
        self.get_attrib(backend, egl::EGL_SAMPLE_BUFFERS)
    }

    /// Number of samples per pixel.
    pub fn samples<B: Backend>(&self, backend: &mut B) -> (r: Result<i32, Error>)
        ensures
            r matches Err(e) ==> e == Error::Egl(EglCallError::GetConfigAttrib),
    {
        self.get_attrib(backend, egl::EGL_SAMPLES)
    }

    /// Number of bits in the stencil buffer.
    pub fn stencil_size<B: Backend>(&self, backend: &mut B) -> (r: Result<u32, Error>)
        ensures
            r matches Err(e) ==> e == Error::Egl(EglCallError::GetConfigAttrib),
    {
        self.get_attrib_size(backend, egl::EGL_STENCIL_SIZE)
    }

    /// Mask of supported surface kinds and capabilities.
    pub fn surface_type<B: Backend>(&self, backend: &mut B) -> (r: Result<SurfaceType, Error>)
        ensures
            r matches Err(e) ==> e == Error::Egl(EglCallError::GetConfigAttrib),
    {
        match self.get_attrib(backend, egl::EGL_SURFACE_TYPE) {
            Ok(value) => Ok(SurfaceType::from_bits_truncate(value)),
            Err(e) => Err(e),
        }
    }

    /// The supported transparency kind, or `None` inside the success case
    /// when the native library reports a value outside the specified codes.
    pub fn transparent_type<B: Backend>(&self, backend: &mut B) -> (r: Result<
        Option<TransparentType>,
        Error,
    >)
        ensures
            r matches Err(e) ==> e == Error::Egl(EglCallError::GetConfigAttrib),
    {
        match self.get_attrib(backend, egl::EGL_TRANSPARENT_TYPE) {
            Ok(value) => Ok(TransparentType::from_raw(value)),
            Err(e) => Err(e),
        }
    }

    /// The transparent red value.
    pub fn transparent_red_value<B: Backend>(&self, backend: &mut B) -> (r: Result<u32, Error>)
        ensures
            r matches Err(e) ==> e == Error::Egl(EglCallError::GetConfigAttrib),
    {
        self.get_attrib_size(backend, egl::EGL_TRANSPARENT_RED_VALUE)
    }

    /// The transparent green value.
    pub fn transparent_green_value<B: Backend>(&self, backend: &mut B) -> (r: Result<u32, Error>)
        ensures
            r matches Err(e) ==> e == Error::Egl(EglCallError::GetConfigAttrib),
    {
        self.get_attrib_size(backend, egl::EGL_TRANSPARENT_GREEN_VALUE)
    }

    /// The transparent blue value.
    pub fn transparent_blue_value<B: Backend>(&self, backend: &mut B) -> (r: Result<u32, Error>)
        ensures
            r matches Err(e) ==> e == Error::Egl(EglCallError::GetConfigAttrib),
    {
        self.get_attrib_size(backend, egl::EGL_TRANSPARENT_BLUE_VALUE)
    }
}

/// Reads a reported attribute value as a native boolean: true exactly on
/// the native true code.
fn attrib_as_bool(value: i32) -> (r: bool)
    ensures
        r == (value == egl::EGL_TRUE),
{
    value == egl::EGL_TRUE
}

/// Reads a reported attribute value as a bit count, reinterpreting the
/// 32-bit value as unsigned.
fn attrib_as_size(value: i32) -> (r: u32)
    ensures
        r == value as u32,
{
    value as u32
}

} // verus!
