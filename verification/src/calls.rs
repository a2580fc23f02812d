//! The typed call layer for entry points no ownership wrapper carries.
//!
//! Each function takes the same arguments as the native entry point, over
//! plain handle values, invokes it through the backend, and interprets the
//! boolean or null-handle outcome into a typed result whose failure is
//! that operation's own tag and never another.  Thread-affine operations
//! (current bindings, waits, the rendering API, the extended error code)
//! concern the calling thread's state, which this layer passes through
//! without modeling.

use vstd::prelude::*;

use crate::backend::Backend;
use crate::error::{check_call_flag, check_call_handle, EglCallError, EglCallResult};

verus! {

/// Sets the current rendering API of the calling thread.
///
/// Fails only with the bind-api tag, exactly when the native call reports
/// failure.
pub fn bind_api<B: Backend>(backend: &mut B, api: u32) -> (r: EglCallResult<()>)
    ensures
        r matches Err(e) ==> e == EglCallError::BindAPI,
{
    let ok = backend.bind_api(api);
    check_call_flag(ok, EglCallError::BindAPI)
}

/// Reports the current rendering API of the calling thread.
pub fn query_api<B: Backend>(backend: &mut B) -> (r: u32) {
    backend.query_api()
}

/// Defines a two-dimensional texture image from a surface buffer.
///
/// Fails only with the bind-tex-image tag, exactly when the native call
/// reports failure.
pub fn bind_tex_image<B: Backend>(
    backend: &mut B,
    display: usize,
    surface: usize,
    buffer: i32,
) -> (r: EglCallResult<()>)
    ensures
        r matches Err(e) ==> e == EglCallError::BindTexImage,
{
    let ok = backend.bind_tex_image(display, surface, buffer);
    check_call_flag(ok, EglCallError::BindTexImage)
}

/// Releases a surface buffer used as a texture.
///
/// Fails only with the release-tex-image tag, exactly when the native
/// call reports failure.
pub fn release_tex_image<B: Backend>(
    backend: &mut B,
    display: usize,
    surface: usize,
    buffer: i32,
) -> (r: EglCallResult<()>)
    ensures
        r matches Err(e) ==> e == EglCallError::ReleaseTexImage,
{
    let ok = backend.release_tex_image(display, surface, buffer);
    check_call_flag(ok, EglCallError::ReleaseTexImage)
}

/// Copies a surface's color buffer to a native pixmap.
///
/// Fails only with the copy-buffers tag, exactly when the native call
/// reports failure.
pub fn copy_buffers<B: Backend>(
    backend: &mut B,
    display: usize,
    surface: usize,
    target: usize,
) -> (r: EglCallResult<()>)
    ensures
        r matches Err(e) ==> e == EglCallError::CopyBuffers,
{
    let ok = backend.copy_buffers(display, surface, target);
    check_call_flag(ok, EglCallError::CopyBuffers)
}

/// Creates a window surface for a configuration, a native window and a
/// terminated attribute list.
///
/// Fails only with the create-window-surface tag, exactly when the native
/// call reports the null handle.
pub fn create_window_surface_with_attribs<B: Backend>(
    backend: &mut B,
    display: usize,
    config: usize,
    window: usize,
    attrib_list: &Vec<i32>,
) -> (r: EglCallResult<usize>)
    ensures
        r matches Err(e) ==> e == EglCallError::CreateWindowSurface,
        r matches Ok(h) ==> h != 0,
{
    let created = backend.create_window_surface(display, config, window, attrib_list);
    check_call_handle(created, EglCallError::CreateWindowSurface)
}

/// Creates a pixmap surface for a configuration, a native pixmap and a
/// terminated attribute list.
///
/// Fails only with the create-pixmap-surface tag, exactly when the native
/// call reports the null handle.
pub fn create_pixmap_surface<B: Backend>(
    backend: &mut B,
    display: usize,
    config: usize,
    pixmap: usize,
    attrib_list: &Vec<i32>,
) -> (r: EglCallResult<usize>)
    ensures
        r matches Err(e) ==> e == EglCallError::CreatePixmapSurface,
        r matches Ok(h) ==> h != 0,
{
    let created = backend.create_pixmap_surface(display, config, pixmap, attrib_list);
    check_call_handle(created, EglCallError::CreatePixmapSurface)
}

/// Creates a pixel-buffer surface bound to a client API buffer of the
/// given kind, for a configuration and a terminated attribute list.
///
/// Fails only with the create-pbuffer-from-client-buffer tag, exactly
/// when the native call reports the null handle.
pub fn create_pbuffer_from_client_buffer<B: Backend>(
    backend: &mut B,
    display: usize,
    buffer_kind: u32,
    buffer: usize,
    config: usize,
    attrib_list: &Vec<i32>,
) -> (r: EglCallResult<usize>)
    ensures
        r matches Err(e) ==> e == EglCallError::CreatePbufferFromClientBuffer,
        r matches Ok(h) ==> h != 0,
{
    let created = backend.create_pbuffer_from_client_buffer(
        display,
        buffer_kind,
        buffer,
        config,
        attrib_list,
    );
    check_call_handle(created, EglCallError::CreatePbufferFromClientBuffer)
}

/// Creates a window surface through the platform-aware entry point, for a
/// configuration, a platform window and a terminated attribute list.
///
/// Fails only with the create-platform-window-surface tag, exactly when
/// the native call reports the null handle.
pub fn create_platform_window_surface<B: Backend>(
    backend: &mut B,
    display: usize,
    config: usize,
    native_window: usize,
    attrib_list: &Vec<i32>,
) -> (r: EglCallResult<usize>)
    ensures
        r matches Err(e) ==> e == EglCallError::CreatePlatformWindowSurface,
        r matches Ok(h) ==> h != 0,
{
    let created = backend.create_platform_window_surface(display, config, native_window, attrib_list);
    check_call_handle(created, EglCallError::CreatePlatformWindowSurface)
}

/// Reports the rendering context current to the calling thread.
///
/// Fails only with the get-current-context tag, exactly when the native
/// call reports the null handle.
pub fn get_current_context<B: Backend>(backend: &mut B) -> (r: EglCallResult<usize>)
    ensures
        r matches Err(e) ==> e == EglCallError::GetCurrentContext,
        r matches Ok(h) ==> h != 0,
{
    let current = backend.get_current_context();
    check_call_handle(current, EglCallError::GetCurrentContext)
}

/// Reports the display of the context current to the calling thread.
///
/// Fails only with the get-current-display tag, exactly when the native
/// call reports the null handle.
pub fn get_current_display<B: Backend>(backend: &mut B) -> (r: EglCallResult<usize>)
    ensures
        r matches Err(e) ==> e == EglCallError::GetCurrentDisplay,
        r matches Ok(h) ==> h != 0,
{
    let current = backend.get_current_display();
    check_call_handle(current, EglCallError::GetCurrentDisplay)
}

/// Reports the draw or read surface current to the calling thread, chosen
/// by the readdraw code.
///
/// Fails only with the get-current-surface tag, exactly when the native
/// call reports the null handle.
pub fn get_current_surface<B: Backend>(backend: &mut B, readdraw: i32) -> (r: EglCallResult<usize>)
    ensures
        r matches Err(e) ==> e == EglCallError::GetCurrentSurface,
        r matches Ok(h) ==> h != 0,
{
    let current = backend.get_current_surface(readdraw);
    check_call_handle(current, EglCallError::GetCurrentSurface)
}

/// Reports the extended error code of the most recent native call on the
/// calling thread.
///
/// This layer never consults the code itself; it is offered for callers
/// needing finer diagnosis than the typed tags give.
pub fn get_error<B: Backend>(backend: &mut B) -> (r: i32) {
    backend.get_error()
}

/// Queries one attribute of a rendering context.
///
/// Fails only with the query-context tag, exactly when the native call
/// reports failure.
pub fn query_context<B: Backend>(
    backend: &mut B,
    display: usize,
    context: usize,
    attribute: i32,
) -> (r: EglCallResult<i32>)
    ensures
        r matches Err(e) ==> e == EglCallError::QueryContext,
{
    let (ok, value) = backend.query_context(display, context, attribute);
    match check_call_flag(ok, EglCallError::QueryContext) {
        Ok(_) => Ok(value),
        Err(e) => Err(e),
    }
}

/// Sets one attribute of a surface.
///
/// Fails only with the surface-attrib tag, exactly when the native call
/// reports failure.
pub fn surface_attrib<B: Backend>(
    backend: &mut B,
    display: usize,
    surface: usize,
    attribute: i32,
    value: i32,
) -> (r: EglCallResult<()>)
    ensures
        r matches Err(e) ==> e == EglCallError::SurfaceAttrib,
{
    let ok = backend.surface_attrib(display, surface, attribute, value);
    check_call_flag(ok, EglCallError::SurfaceAttrib)
}

/// Sets the minimum frame periods per buffer swap for the window of the
/// current context.
///
/// Fails only with the swap-interval tag, exactly when the native call
/// reports failure.
pub fn swap_interval<B: Backend>(backend: &mut B, display: usize, interval: i32) -> (r:
    EglCallResult<()>)
    ensures
        r matches Err(e) ==> e == EglCallError::SwapInterval,
{
    let ok = backend.swap_interval(display, interval);
    check_call_flag(ok, EglCallError::SwapInterval)
}

/// Releases the native library's state for the calling thread.
///
/// Fails only with the release-thread tag, exactly when the native call
/// reports failure.
pub fn release_thread<B: Backend>(backend: &mut B) -> (r: EglCallResult<()>)
    ensures
        r matches Err(e) ==> e == EglCallError::ReleaseThread,
{
    let ok = backend.release_thread();
    check_call_flag(ok, EglCallError::ReleaseThread)
}

/// Completes client API execution before subsequent native rendering.
///
/// Fails only with the wait-client tag, exactly when the native call
/// reports failure.
pub fn wait_client<B: Backend>(backend: &mut B) -> (r: EglCallResult<()>)
    ensures
        r matches Err(e) ==> e == EglCallError::WaitClient,
{
    let ok = backend.wait_client();
    check_call_flag(ok, EglCallError::WaitClient)
}

/// Completes OpenGL ES execution before subsequent native rendering.
///
/// Fails only with the wait-gl tag, exactly when the native call reports
/// failure.
pub fn wait_gl<B: Backend>(backend: &mut B) -> (r: EglCallResult<()>)
    ensures
        r matches Err(e) ==> e == EglCallError::WaitGL,
{
    let ok = backend.wait_gl();
    check_call_flag(ok, EglCallError::WaitGL)
}

/// Completes native rendering of the given engine before subsequent
/// client API rendering.
///
/// Fails only with the wait-native tag, exactly when the native call
/// reports failure.
pub fn wait_native<B: Backend>(backend: &mut B, engine: i32) -> (r: EglCallResult<()>)
    ensures
        r matches Err(e) ==> e == EglCallError::WaitNative,
{
    let ok = backend.wait_native(engine);
    check_call_flag(ok, EglCallError::WaitNative)
}

} // verus!
