//! Native constants and plain-value handle types.
//!
//! The numeric codes are wire-level values shared with the installed native
//! library and must match its specification bit for bit.  Handles are carried
//! as `usize` address values; zero is the null handle throughout.

use vstd::prelude::*;

verus! {

/// Attribute codes and values travel as 32-bit signed integers.
pub type EGLint = i32;

/// A display connection handle as a plain address value.
pub type EGLDisplay = usize;

/// A frame buffer configuration handle as a plain address value.
pub type EGLConfig = usize;

/// A rendering context handle as a plain address value.
pub type EGLContext = usize;

/// A drawable surface handle as a plain address value.
pub type EGLSurface = usize;

/// A native display identifier as a plain address value.
pub type EGLNativeDisplayType = usize;

/// A native window identifier as a plain address value.
pub type EGLNativeWindowType = usize;

/// A native pixmap identifier as a plain address value.
pub type EGLNativePixmapType = usize;

/// A client API buffer identifier as a plain address value.
pub type EGLClientBuffer = usize;

/// Enumerated codes of the native interface travel as 32-bit unsigned
/// integers.
pub type EGLenum = u32;

// Out-of-band handle values.
pub const EGL_DEFAULT_DISPLAY: EGLNativeDisplayType = 0;
pub const EGL_NO_CONTEXT: EGLContext = 0;
pub const EGL_NO_DISPLAY: EGLDisplay = 0;
pub const EGL_NO_SURFACE: EGLSurface = 0;

// Out-of-band attribute value.
pub const EGL_DONT_CARE: EGLint = -1;

// Error codes of the native side channel.
pub const EGL_SUCCESS: EGLint = 0x3000;
pub const EGL_NOT_INITIALIZED: EGLint = 0x3001;
pub const EGL_BAD_ACCESS: EGLint = 0x3002;
pub const EGL_BAD_ALLOC: EGLint = 0x3003;
pub const EGL_BAD_ATTRIBUTE: EGLint = 0x3004;
pub const EGL_BAD_CONFIG: EGLint = 0x3005;
pub const EGL_BAD_CONTEXT: EGLint = 0x3006;
pub const EGL_BAD_CURRENT_SURFACE: EGLint = 0x3007;
pub const EGL_BAD_DISPLAY: EGLint = 0x3008;
pub const EGL_BAD_MATCH: EGLint = 0x3009;
pub const EGL_BAD_NATIVE_PIXMAP: EGLint = 0x300A;
pub const EGL_BAD_NATIVE_WINDOW: EGLint = 0x300B;
pub const EGL_BAD_PARAMETER: EGLint = 0x300C;
pub const EGL_BAD_SURFACE: EGLint = 0x300D;
pub const EGL_CONTEXT_LOST: EGLint = 0x300E;

// Configuration attribute codes.
pub const EGL_BUFFER_SIZE: EGLint = 0x3020;
pub const EGL_ALPHA_SIZE: EGLint = 0x3021;
pub const EGL_BLUE_SIZE: EGLint = 0x3022;
pub const EGL_GREEN_SIZE: EGLint = 0x3023;
pub const EGL_RED_SIZE: EGLint = 0x3024;
pub const EGL_DEPTH_SIZE: EGLint = 0x3025;
pub const EGL_STENCIL_SIZE: EGLint = 0x3026;
pub const EGL_CONFIG_CAVEAT: EGLint = 0x3027;
pub const EGL_CONFIG_ID: EGLint = 0x3028;
pub const EGL_LEVEL: EGLint = 0x3029;
pub const EGL_MAX_PBUFFER_HEIGHT: EGLint = 0x302A;
pub const EGL_MAX_PBUFFER_PIXELS: EGLint = 0x302B;
pub const EGL_MAX_PBUFFER_WIDTH: EGLint = 0x302C;
pub const EGL_NATIVE_RENDERABLE: EGLint = 0x302D;
pub const EGL_NATIVE_VISUAL_ID: EGLint = 0x302E;
pub const EGL_NATIVE_VISUAL_TYPE: EGLint = 0x302F;
pub const EGL_SAMPLES: EGLint = 0x3031;
pub const EGL_SAMPLE_BUFFERS: EGLint = 0x3032;
pub const EGL_SURFACE_TYPE: EGLint = 0x3033;
pub const EGL_TRANSPARENT_TYPE: EGLint = 0x3034;
pub const EGL_TRANSPARENT_BLUE_VALUE: EGLint = 0x3035;
pub const EGL_TRANSPARENT_GREEN_VALUE: EGLint = 0x3036;
pub const EGL_TRANSPARENT_RED_VALUE: EGLint = 0x3037;

/// Attribute list terminator, doubling as the "no caveat" and "no
/// transparency" attribute value.
pub const EGL_NONE: EGLint = 0x3038;

pub const EGL_BIND_TO_TEXTURE_RGB: EGLint = 0x3039;
pub const EGL_BIND_TO_TEXTURE_RGBA: EGLint = 0x303A;
pub const EGL_MIN_SWAP_INTERVAL: EGLint = 0x303B;
pub const EGL_MAX_SWAP_INTERVAL: EGLint = 0x303C;
pub const EGL_LUMINANCE_SIZE: EGLint = 0x303D;
pub const EGL_ALPHA_MASK_SIZE: EGLint = 0x303E;
pub const EGL_COLOR_BUFFER_TYPE: EGLint = 0x303F;
pub const EGL_RENDERABLE_TYPE: EGLint = 0x3040;
pub const EGL_MATCH_NATIVE_PIXMAP: EGLint = 0x3041;
pub const EGL_CONFORMANT: EGLint = 0x3042;

// Configuration attribute values.
pub const EGL_SLOW_CONFIG: EGLint = 0x3050;
pub const EGL_NON_CONFORMANT_CONFIG: EGLint = 0x3051;
pub const EGL_TRANSPARENT_RGB: EGLint = 0x3052;
pub const EGL_RGB_BUFFER: EGLint = 0x308E;
pub const EGL_LUMINANCE_BUFFER: EGLint = 0x308F;

// Query-string targets.
pub const EGL_VENDOR: EGLint = 0x3053;
pub const EGL_VERSION: EGLint = 0x3054;
pub const EGL_EXTENSIONS: EGLint = 0x3055;
pub const EGL_CLIENT_APIS: EGLint = 0x308D;

// Surface query and pixel-buffer attribute codes.
pub const EGL_HEIGHT: EGLint = 0x3056;
pub const EGL_WIDTH: EGLint = 0x3057;
pub const EGL_LARGEST_PBUFFER: EGLint = 0x3058;

// Context creation attribute codes.
pub const EGL_CONTEXT_CLIENT_VERSION: EGLint = 0x3098;

// Back buffer kinds for texture image binding.
pub const EGL_BACK_BUFFER: EGLint = 0x3084;
pub const EGL_SINGLE_BUFFER: EGLint = 0x3085;

// Client buffer kinds for pixel-buffer creation.
pub const EGL_OPENVG_IMAGE: EGLenum = 0x3096;

// Rendering API codes for binding and querying the current API.
pub const EGL_OPENGL_ES_API: EGLenum = 0x30A0;
pub const EGL_OPENVG_API: EGLenum = 0x30A1;
pub const EGL_OPENGL_API: EGLenum = 0x30A2;

// Current-surface selectors.
pub const EGL_DRAW: EGLint = 0x3059;
pub const EGL_READ: EGLint = 0x305A;

// Native engine code for native-rendering synchronization.
pub const EGL_CORE_NATIVE_ENGINE: EGLint = 0x305B;

// True and false as the native library reports them.
pub const EGL_FALSE: EGLint = 0;
pub const EGL_TRUE: EGLint = 1;

} // verus!
