//! Exclusive ownership of a drawable surface handle.

use vstd::prelude::*;

use crate::backend::Backend;
use crate::egl;
use crate::error::{check_native_flag, EglCallError, Error};

verus! {

/// Exclusively owned drawable surface (window-backed or off-screen).
///
/// The value holds the surface handle together with a non-owning
/// back-reference to the owning display's handle, which the destroy call
/// needs.  Ownership is structural: the owner either hands the value to
/// [`Surface::destroy`], which issues the native destroy call, or to
/// [`Surface::forget`], which returns the raw handle and leaves every
/// native resource untouched.  No other release path exists, so at most one
/// destroy call is ever made for one surface.
#[derive(Debug)]
pub struct Surface {
    display_handle: egl::EGLDisplay,
    handle: egl::EGLSurface,
}

impl Surface {
    /// Wraps an existing display and surface handle pair, as handed out by
    /// a display operation.
    pub fn from_handle(display_handle: egl::EGLDisplay, surface_handle: egl::EGLSurface) -> (r:
        Surface)
        ensures
            r.spec_display_handle() == display_handle,
            r.spec_handle() == surface_handle,
    {
        Surface { display_handle, handle: surface_handle }
    }

    /// The raw surface handle.
    pub fn handle(&self) -> (r: egl::EGLSurface)
        ensures
            r == self.spec_handle(),
    {
        self.handle
    }

    /// The owning display's handle.
    pub fn display_handle(&self) -> (r: egl::EGLDisplay)
        ensures
            r == self.spec_display_handle(),
    {
        self.display_handle
    }

    /// The raw surface handle, as the contracts see it.
    pub closed spec fn spec_handle(self) -> egl::EGLSurface {
        self.handle
    }

    /// The owning display's handle, as the contracts see it.
    pub closed spec fn spec_display_handle(self) -> egl::EGLDisplay {
        self.display_handle
    }

    /// Queries the width of the surface in pixels.
    ///
    /// Fails only with the query-surface tag, exactly when the native call
    /// reports failure.
    pub fn query_width<B: Backend>(&self, backend: &mut B) -> (r: Result<i32, Error>)
        ensures
            r matches Err(e) ==> e == Error::Egl(EglCallError::QuerySurface),
    {
        let (ok, value) = backend.query_surface(self.display_handle, self.handle, egl::EGL_WIDTH);
        match check_native_flag(ok, EglCallError::QuerySurface) {
            Ok(_) => Ok(value),
            Err(e) => Err(e),
        }
    }

    /// Queries the height of the surface in pixels.
    ///
    /// Fails only with the query-surface tag, exactly when the native call
    /// reports failure.
    pub fn query_height<B: Backend>(&self, backend: &mut B) -> (r: Result<i32, Error>)
        ensures
            r matches Err(e) ==> e == Error::Egl(EglCallError::QuerySurface),
    {
        let (ok, value) = backend.query_surface(self.display_handle, self.handle, egl::EGL_HEIGHT);
        match check_native_flag(ok, EglCallError::QuerySurface) {
            Ok(_) => Ok(value),
            Err(e) => Err(e),
        }
    }

    /// Gives up the wrapper without releasing any native resource and
    /// returns the raw handle, transferring ownership to the caller.
    ///
    /// No native call is made: the signature takes no backend.
    pub fn forget(self) -> (r: egl::EGLSurface)
        ensures
            r == self.spec_handle(),
    {
        self.handle
    }

    /// Destroys the surface through the native destroy call.
    ///
    /// Fails only with the destroy-surface tag, exactly when the native
    /// call reports failure.  The native library defers the actual teardown
    /// of a surface that is still current to a thread; that behavior stays
    /// its own.
    pub fn destroy<B: Backend>(self, backend: &mut B) -> (r: Result<(), Error>)
        ensures
            r matches Err(e) ==> e == Error::Egl(EglCallError::DestroySurface),
    {
        let ok = backend.destroy_surface(self.display_handle, self.handle);
        check_native_flag(ok, EglCallError::DestroySurface)
    }
}

} // verus!
