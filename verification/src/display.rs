//! The display connection and its operations.

use vstd::prelude::*;

use crate::backend::Backend;
use crate::config_filter::ConfigFilterRef;
use crate::context::Context;
use crate::egl;
use crate::error::{check_native_flag, check_native_handle, check_native_string, EglCallError, Error};
use crate::frame_buffer_config::FrameBufferConfigRef;
use crate::utf8::decode_native_text;
use crate::version::Version;
use crate::window_surface::Surface;

verus! {

/// Requested client API version for context creation.
#[derive(Copy, Clone, Debug, PartialEq, Eq, Structural)]
pub enum ContextClientVersion {
    OpenGlEs1,
    OpenGlEs2,
}

/// Wraps the configuration handles a fill call reported into references
/// tied to one display.
///
/// The result holds exactly `reported` entries — the count the second
/// enumeration call returned, never the allocated capacity — and entry `i`
/// wraps handle `i` of the buffer.
pub fn wrap_reported_configs(
    display_handle: egl::EGLDisplay,
    handles: &Vec<usize>,
    reported: usize,
) -> (r: Vec<FrameBufferConfigRef>)
    requires
        reported <= handles@.len(),
    ensures
        r@.len() == reported,
        forall|i: int|
            0 <= i < reported ==> (#[trigger] r@[i]).spec_display_handle() == display_handle
                && r@[i].spec_handle() == handles@[i],
{
    let mut out: Vec<FrameBufferConfigRef> = Vec::new();
    let mut idx: usize = 0;
    while idx < reported
        invariant
            idx <= reported,
            reported <= handles@.len(),
            out@.len() == idx,
            forall|i: int|
                0 <= i < idx ==> (#[trigger] out@[i]).spec_display_handle() == display_handle
                    && out@[i].spec_handle() == handles@[i],
        decreases reported - idx,
    {
        let config = FrameBufferConfigRef::from_native(display_handle, handles[idx]);
        out.push(config);
        assert(out@[idx as int] == config);
        idx = idx + 1;
    }
    out
}

/// The native code requesting a client API version.
pub open spec fn spec_client_version_code(client_version: ContextClientVersion) -> i32 {
    match client_version {
        ContextClientVersion::OpenGlEs1 => 1,
        ContextClientVersion::OpenGlEs2 => 2,
    }
}

/// Builds the attribute list holding the terminator alone, leaving every
/// attribute at the native library's default.
fn no_attribs() -> (r: Vec<i32>)
    ensures
        r@ == seq![egl::EGL_NONE],
{
    let mut attribs: Vec<i32> = Vec::new();
    attribs.push(egl::EGL_NONE);
    proof {
        assert(attribs@ =~= seq![egl::EGL_NONE]);
    }
    attribs
}

/// Builds the terminated attribute list carrying a pixel buffer's size.
fn pbuffer_attribs(width: i32, height: i32) -> (r: Vec<i32>)
    ensures
        r@ == seq![egl::EGL_WIDTH, width, egl::EGL_HEIGHT, height, egl::EGL_NONE],
{
    let mut attribs: Vec<i32> = Vec::new();
    attribs.push(egl::EGL_WIDTH);
    attribs.push(width);
    attribs.push(egl::EGL_HEIGHT);
    attribs.push(height);
    attribs.push(egl::EGL_NONE);
    proof {
        assert(attribs@ =~= seq![egl::EGL_WIDTH, width, egl::EGL_HEIGHT, height, egl::EGL_NONE]);
    }
    attribs
}

/// Builds the terminated attribute list requesting a client API version.
fn context_attribs(client_version: ContextClientVersion) -> (r: Vec<i32>)
    ensures
        r@ == seq![
            egl::EGL_CONTEXT_CLIENT_VERSION,
            spec_client_version_code(client_version),
            egl::EGL_NONE,
        ],
{
    let requested: i32 = match client_version {
        ContextClientVersion::OpenGlEs1 => 1,
        ContextClientVersion::OpenGlEs2 => 2,
    };
    let mut attribs: Vec<i32> = Vec::new();
    attribs.push(egl::EGL_CONTEXT_CLIENT_VERSION);
    attribs.push(requested);
    attribs.push(egl::EGL_NONE);
    proof {
        assert(attribs@ =~= seq![
            egl::EGL_CONTEXT_CLIENT_VERSION,
            spec_client_version_code(client_version),
            egl::EGL_NONE,
        ]);
    }
    attribs
}

/// Exclusively owned display connection.
///
/// The value holds the display handle.  Ownership is structural: the owner
/// either hands the value to [`Display::terminate`], which detaches the
/// calling thread's context and surfaces and terminates the connection, or
/// to [`Display::forget`], which returns the raw handle and leaves the
/// connection untouched.  No other release path exists, so at most one
/// terminate call is ever made for one connection.
#[derive(Debug)]
pub struct Display {
    handle: egl::EGLDisplay,
}

impl Display {
    /// The raw display handle, as the contracts see it.
    pub closed spec fn spec_handle(self) -> egl::EGLDisplay {
        self.handle
    }

    /// Resolves a display connection for a native display identifier.
    ///
    /// The native layer signals a missing display by the null handle and
    /// raises no error; this layer turns that null handle into the
    /// get-display failure tag, so absence must be handled explicitly.
    pub fn from_display_id<B: Backend>(
        backend: &mut B,
        display_id: egl::EGLNativeDisplayType,
    ) -> (r: Result<Display, Error>)
        ensures
            r matches Err(e) ==> e == Error::Egl(EglCallError::GetDisplay),
            r matches Ok(d) ==> d.spec_handle() != 0,
    {
        let resolved = backend.get_display(display_id);
        match check_native_handle(resolved, EglCallError::GetDisplay) {
            Ok(handle) => Ok(Display { handle }),
            Err(e) => Err(e),
        }
    }

    /// Resolves the default display.
    ///
    /// Shorthand for [`Display::from_display_id`] with the default display
    /// identifier.
    pub fn from_default_display<B: Backend>(backend: &mut B) -> (r: Result<Display, Error>)
        ensures
            r matches Err(e) ==> e == Error::Egl(EglCallError::GetDisplay),
            r matches Ok(d) ==> d.spec_handle() != 0,
    {
        Display::from_display_id(backend, egl::EGL_DEFAULT_DISPLAY)
    }

    /// Initializes the display connection and reports the negotiated
    /// version.
    ///
    /// Initializing an already initialized connection has no effect beyond
    /// re-reporting the version.  Fails only with the initialize tag,
    /// exactly when the native call reports failure.
    pub fn initialize_and_get_version<B: Backend>(&self, backend: &mut B) -> (r: Result<
        Version,
        Error,
    >)
        ensures
            r matches Err(e) ==> e == Error::Egl(EglCallError::Initialize),
    {
        let (ok, major, minor) = backend.initialize(self.handle);
        match check_native_flag(ok, EglCallError::Initialize) {
            Ok(_) => Ok(Version::new(major, minor)),
            Err(e) => Err(e),
        }
    }

    /// Initializes the display connection.
    ///
    /// Initializing an already initialized connection has no effect.  Fails
    /// only with the initialize tag, exactly when the native call reports
    /// failure.
    pub fn initialize<B: Backend>(&self, backend: &mut B) -> (r: Result<(), Error>)
        ensures
            r matches Err(e) ==> e == Error::Egl(EglCallError::Initialize),
    {
        let (ok, _major, _minor) = backend.initialize(self.handle);
        check_native_flag(ok, EglCallError::Initialize)
    }

    /// Queries one named string of this display, decoded as text.
    ///
    /// Fails with the query-string tag when the native call reports
    /// failure, and with the text-decoding error when the reported bytes
    /// are not valid UTF-8.
    fn query_text<B: Backend>(&self, backend: &mut B, name: i32) -> (r: Result<String, Error>)
        ensures
            r matches Err(e) ==> e == Error::Egl(EglCallError::QueryString)
                || e == Error::NonUtf8StringReceived,
    {
        match check_native_string(backend.query_string(self.handle, name), EglCallError::QueryString) {
            Ok(bytes) => decode_native_text(bytes),
            Err(e) => Err(e),
        }
    }

    /// Queries the client API string: a space-separated list naming the
    /// supported rendering APIs.
    pub fn query_client_apis<B: Backend>(&self, backend: &mut B) -> (r: Result<String, Error>)
        ensures
            r matches Err(e) ==> e == Error::Egl(EglCallError::QueryString)
                || e == Error::NonUtf8StringReceived,
    {
        self.query_text(backend, egl::EGL_CLIENT_APIS)
    }

    /// Queries the vendor string.
    pub fn query_vendor<B: Backend>(&self, backend: &mut B) -> (r: Result<String, Error>)
        ensures
            r matches Err(e) ==> e == Error::Egl(EglCallError::QueryString)
                || e == Error::NonUtf8StringReceived,
    {
        self.query_text(backend, egl::EGL_VENDOR)
    }

    /// Queries the version string; its major and minor portions match the
    /// values initialization reports.
    pub fn query_version<B: Backend>(&self, backend: &mut B) -> (r: Result<String, Error>)
        ensures
            r matches Err(e) ==> e == Error::Egl(EglCallError::QueryString)
                || e == Error::NonUtf8StringReceived,
    {
        self.query_text(backend, egl::EGL_VERSION)
    }

    /// Queries the display extension string: a space-separated list of
    /// supported extensions.
    pub fn query_extensions<B: Backend>(&self, backend: &mut B) -> (r: Result<String, Error>)
        ensures
            r matches Err(e) ==> e == Error::Egl(EglCallError::QueryString)
                || e == Error::NonUtf8StringReceived,
    {
        self.query_text(backend, egl::EGL_EXTENSIONS)
    }

    /// Enumerates every configuration of this display.
    ///
    /// Issues the two-call enumeration pattern: a count query first, then a
    /// fill into a buffer of exactly that count.  The result holds exactly
    /// as many references as the fill call reported written, which may be
    /// fewer than the count query announced.  Fails only with the
    /// get-configs tag, exactly when either native call reports failure.
    pub fn get_configs<B: Backend>(&self, backend: &mut B) -> (r: Result<
        Vec<FrameBufferConfigRef>,
        Error,
    >)
        ensures
            r matches Err(e) ==> e == Error::Egl(EglCallError::GetConfigs),
            r matches Ok(v) ==> forall|i: int|
                0 <= i < v@.len() ==> v@[i].spec_display_handle() == self.spec_handle(),
    {
        let (count_ok, count) = backend.get_configs_count(self.handle);
        match check_native_flag(count_ok, EglCallError::GetConfigs) {
            Ok(_) => {},
            Err(e) => {
                return Err(e);
            },
        }
        let (fill_ok, handles, reported) = backend.get_configs_fill(self.handle, count);
        match check_native_flag(fill_ok, EglCallError::GetConfigs) {
            Ok(_) => {},
            Err(e) => {
                return Err(e);
            },
        }
        Ok(wrap_reported_configs(self.handle, &handles, reported))
    }

    /// Opens an empty configuration filter for this display.
    ///
    /// The filter starts with no criterion set; see [`ConfigFilterRef`] for
    /// the selection criteria and the query that consumes it.
    pub fn config_filter(&self) -> (r: ConfigFilterRef)
        ensures
            r == ConfigFilterRef::spec_empty(self.spec_handle()),
    {
        ConfigFilterRef::from_native(self.handle)
    }

    /// Creates a window surface for a configuration and a native window.
    ///
    /// Fails only with the create-window-surface tag, exactly when the
    /// native call reports the null handle.
    pub fn create_window_surface<B: Backend>(
        &self,
        backend: &mut B,
        config: FrameBufferConfigRef,
        window: egl::EGLNativeWindowType,
    ) -> (r: Result<Surface, Error>)
        ensures
            r matches Err(e) ==> e == Error::Egl(EglCallError::CreateWindowSurface),
            r matches Ok(s) ==> s.spec_display_handle() == self.spec_handle() && s.spec_handle()
                != 0,
    {
        let attribs = no_attribs();
        let created = backend.create_window_surface(self.handle, config.handle(), window, &attribs);
        match check_native_handle(created, EglCallError::CreateWindowSurface) {
            Ok(handle) => Ok(Surface::from_handle(self.handle, handle)),
            Err(e) => Err(e),
        }
    }

    /// Creates an off-screen pixel buffer surface of the given size for a
    /// configuration.
    ///
    /// The width and height travel in a terminated attribute list.  Fails
    /// only with the create-pbuffer-surface tag, exactly when the native
    /// call reports the null handle.
    pub fn create_pbuffer_surface<B: Backend>(
        &self,
        backend: &mut B,
        config: FrameBufferConfigRef,
        width: i32,
        height: i32,
    ) -> (r: Result<Surface, Error>)
        ensures
            r matches Err(e) ==> e == Error::Egl(EglCallError::CreatePbufferSurface),
            r matches Ok(s) ==> s.spec_display_handle() == self.spec_handle() && s.spec_handle()
                != 0,
    {
        let attribs = pbuffer_attribs(width, height);
        let created = backend.create_pbuffer_surface(self.handle, config.handle(), &attribs);
        match check_native_handle(created, EglCallError::CreatePbufferSurface) {
            Ok(handle) => Ok(Surface::from_handle(self.handle, handle)),
            Err(e) => Err(e),
        }
    }

    /// Creates a rendering context for a configuration, with the native
    /// library's default client API version.
    ///
    /// Fails only with the create-context tag, exactly when the native call
    /// reports the null handle.
    pub fn create_context<B: Backend>(&self, backend: &mut B, config: FrameBufferConfigRef) -> (r:
        Result<Context, Error>)
        ensures
            r matches Err(e) ==> e == Error::Egl(EglCallError::CreateContext),
            r matches Ok(c) ==> c.spec_display_handle() == self.spec_handle() && c.spec_handle()
                != 0,
    {
        let attribs = no_attribs();
        let created = backend.create_context(
            self.handle,
            config.handle(),
            egl::EGL_NO_CONTEXT,
            &attribs,
        );
        match check_native_handle(created, EglCallError::CreateContext) {
            Ok(handle) => Ok(Context::from_handle(self.handle, handle)),
            Err(e) => Err(e),
        }
    }

    /// Creates a rendering context bound to a requested client API
    /// version.
    ///
    /// The requested version travels in a terminated attribute list.  Fails
    /// only with the create-context tag, exactly when the native call
    /// reports the null handle.
    pub fn create_context_with_client_version<B: Backend>(
        &self,
        backend: &mut B,
        config: FrameBufferConfigRef,
        client_version: ContextClientVersion,
    ) -> (r: Result<Context, Error>)
        ensures
            r matches Err(e) ==> e == Error::Egl(EglCallError::CreateContext),
            r matches Ok(c) ==> c.spec_display_handle() == self.spec_handle() && c.spec_handle()
                != 0,
    {
        let attribs = context_attribs(client_version);
        let created = backend.create_context(
            self.handle,
            config.handle(),
            egl::EGL_NO_CONTEXT,
            &attribs,
        );
        match check_native_handle(created, EglCallError::CreateContext) {
            Ok(handle) => Ok(Context::from_handle(self.handle, handle)),
            Err(e) => Err(e),
        }
    }

    /// Attaches a rendering context and a draw and a read surface to the
    /// calling thread.
    ///
    /// Fails only with the make-current tag, exactly when the native call
    /// reports failure.
    pub fn make_current<B: Backend>(
        &self,
        backend: &mut B,
        draw: &Surface,
        read: &Surface,
        context: &Context,
    ) -> (r: Result<(), Error>)
        ensures
            r matches Err(e) ==> e == Error::Egl(EglCallError::MakeCurrent),
    {
        let ok = backend.make_current(self.handle, draw.handle(), read.handle(), context.handle());
        check_native_flag(ok, EglCallError::MakeCurrent)
    }

    /// Detaches the calling thread's rendering context and surfaces.
    ///
    /// Fails only with the make-current tag, exactly when the native call
    /// reports failure.
    pub fn make_not_current<B: Backend>(&self, backend: &mut B) -> (r: Result<(), Error>)
        ensures
            r matches Err(e) ==> e == Error::Egl(EglCallError::MakeCurrent),
    {
        let ok = backend.make_current(
            self.handle,
            egl::EGL_NO_SURFACE,
            egl::EGL_NO_SURFACE,
            egl::EGL_NO_CONTEXT,
        );
        check_native_flag(ok, EglCallError::MakeCurrent)
    }

    /// Posts a surface's back buffer to its native window.
    ///
    /// Fails only with the swap-buffers tag, exactly when the native call
    /// reports failure.
    pub fn swap_buffers<B: Backend>(&self, backend: &mut B, surface: &Surface) -> (r: Result<
        (),
        Error,
    >)
        ensures
            r matches Err(e) ==> e == Error::Egl(EglCallError::SwapBuffers),
    {
        let ok = backend.swap_buffers(self.handle, surface.handle());
        check_native_flag(ok, EglCallError::SwapBuffers)
    }

    /// Runs an action with the raw display handle as its argument.
    pub fn with_handle<F, R>(&self, action: F) -> (r: R) where F: FnOnce(egl::EGLDisplay) -> R
        requires
            call_requires(action, (self.spec_handle(),)),
        ensures
            call_ensures(action, (self.spec_handle(),), r),
    {
        action(self.handle)
    }

    /// Gives up the wrapper without releasing the connection and returns
    /// the raw handle, transferring ownership to the caller.
    ///
    /// No native call is made: the signature takes no backend.
    pub fn forget(self) -> (r: egl::EGLDisplay)
        ensures
            r == self.spec_handle(),
    {
        self.handle
    }

    /// Detaches the calling thread's context and surfaces, then terminates
    /// the display connection.
    ///
    /// A failure of the detach call is swallowed, and termination is
    /// attempted regardless: cleanup must never abort the caller's control
    /// flow.  The result of the terminate call itself is reported; a caller
    /// free to ignore it gets the original silent best-effort cleanup.
    /// Fails only with the terminate tag, exactly when the native terminate
    /// call reports failure.
    pub fn terminate<B: Backend>(self, backend: &mut B) -> (r: Result<(), Error>)
        ensures
            r matches Err(e) ==> e == Error::Egl(EglCallError::Terminate),
    {
        let _detached = backend.make_current(
            self.handle,
            egl::EGL_NO_SURFACE,
            egl::EGL_NO_SURFACE,
            egl::EGL_NO_CONTEXT,
        );
        let ok = backend.terminate(self.handle);
        check_native_flag(ok, EglCallError::Terminate)
    }
}

} // verus!
