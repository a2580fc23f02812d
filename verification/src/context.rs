//! Exclusive ownership of a rendering context handle.

use vstd::prelude::*;

use crate::backend::Backend;
use crate::egl;
use crate::error::{check_native_flag, EglCallError, Error};

verus! {

/// Exclusively owned rendering context.
///
/// The value holds the context handle together with a non-owning
/// back-reference to the owning display's handle, which the destroy call
/// needs.  Ownership is structural: the owner either hands the value to
/// [`Context::destroy`], which issues the native destroy call, or to
/// [`Context::forget`], which returns the raw handle and leaves every
/// native resource untouched.  No other release path exists, so at most one
/// destroy call is ever made for one context.
#[derive(Debug)]
pub struct Context {
    display_handle: egl::EGLDisplay,
    handle: egl::EGLContext,
}

impl Context {
    /// Wraps an existing display and context handle pair, as handed out by
    /// a display operation.
    pub fn from_handle(display_handle: egl::EGLDisplay, context_handle: egl::EGLContext) -> (r:
        Context)
        ensures
            r.spec_display_handle() == display_handle,
            r.spec_handle() == context_handle,
    {
        Context { display_handle, handle: context_handle }
    }

    /// The raw context handle.
    pub fn handle(&self) -> (r: egl::EGLContext)
        ensures
            r == self.spec_handle(),
    {
        self.handle
    }

    /// The owning display's handle.
    pub fn display_handle(&self) -> (r: egl::EGLDisplay)
        ensures
            r == self.spec_display_handle(),
    {
        self.display_handle
    }

    /// The raw context handle, as the contracts see it.
    pub closed spec fn spec_handle(self) -> egl::EGLContext {
        self.handle
    }

    /// The owning display's handle, as the contracts see it.
    pub closed spec fn spec_display_handle(self) -> egl::EGLDisplay {
        self.display_handle
    }

    /// Gives up the wrapper without releasing any native resource and
    /// returns the raw handle, transferring ownership to the caller.
    ///
    /// No native call is made: the signature takes no backend.
    pub fn forget(self) -> (r: egl::EGLContext)
        ensures
            r == self.spec_handle(),
    {
        self.handle
    }

    /// Destroys the context through the native destroy call.
    ///
    /// Fails only with the destroy-context tag, exactly when the native
    /// call reports failure.  The native library defers the actual teardown
    /// of a context that is still current to a thread; that behavior stays
    /// its own.
    pub fn destroy<B: Backend>(self, backend: &mut B) -> (r: Result<(), Error>)
        ensures
            r matches Err(e) ==> e == Error::Egl(EglCallError::DestroyContext),
    {
        let ok = backend.destroy_context(self.display_handle, self.handle);
        check_native_flag(ok, EglCallError::DestroyContext)
    }
}

} // verus!
