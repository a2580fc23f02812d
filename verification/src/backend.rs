//! The native call boundary.
//!
//! Each method stands for one native entry point, over plain values: handles
//! as `usize` with zero for the null handle, codes and attribute values as
//! `i32`, strings as byte vectors, and the native boolean return as `bool`.
//! The library decides nothing here; it hands the arguments through and
//! interprets the raw outcome afterwards.
//!
//! The few postconditions state only what the native specification
//! guarantees of every conforming implementation: a fill call hands back the
//! buffer it was given and reports at most as many entries as the buffer
//! holds.  The in-crate mock backend is verified against them; a production
//! backend forwarding to the installed native library is expected to meet
//! them by that specification.

use vstd::prelude::*;

verus! {

/// One method per native entry point the library calls.
///
/// Methods take `&mut self` throughout: the native library is stateful, and
/// test backends record the calls made against them.
pub trait Backend: Sized {
    /// Resolves a display connection for a native display identifier.
    /// Returns the display handle, or zero when no matching display exists.
    fn get_display(&mut self, display_id: usize) -> usize;

    /// Initializes a display connection.  Returns the success flag and the
    /// negotiated major and minor version.
    fn initialize(&mut self, display: usize) -> (bool, i32, i32);

    /// Terminates a display connection.  Returns the success flag.
    fn terminate(&mut self, display: usize) -> bool;

    /// Queries a named string of a display (or of no display, for the
    /// client-level strings).  Returns the raw bytes the native library
    /// reports, or `None` when the call reports failure.
    fn query_string(&mut self, display: usize, name: i32) -> Option<Vec<u8>>;

    /// First half of configuration enumeration: reports how many
    /// configurations the display supports.  Returns the success flag and
    /// the count.
    fn get_configs_count(&mut self, display: usize) -> (bool, usize);

    /// Second half of configuration enumeration: fills a buffer of
    /// `capacity` entries and reports how many were written.
    fn get_configs_fill(&mut self, display: usize, capacity: usize) -> (r: (bool, Vec<usize>, usize))
        ensures
            r.0 ==> r.1@.len() == capacity && r.2 <= capacity;

    /// First half of filtered selection: reports how many configurations
    /// match the attribute list.  Returns the success flag and the count.
    fn choose_configs_count(&mut self, display: usize, attribs: &Vec<i32>) -> (bool, usize);

    /// Second half of filtered selection: fills a buffer of `capacity`
    /// entries with matching configurations, in the native library's
    /// preference order, and reports how many were written.
    fn choose_configs_fill(
        &mut self,
        display: usize,
        attribs: &Vec<i32>,
        capacity: usize,
    ) -> (r: (bool, Vec<usize>, usize))
        ensures
            r.0 ==> r.1@.len() == capacity && r.2 <= capacity;

    /// Queries one attribute of a configuration.  Returns the success flag
    /// and the attribute value.
    fn get_config_attrib(&mut self, display: usize, config: usize, attribute: i32) -> (bool, i32);

    /// Creates a window surface for a configuration, a native window and
    /// a terminated attribute list.  Returns the surface handle, or zero
    /// on failure.
    fn create_window_surface(
        &mut self,
        display: usize,
        config: usize,
        window: usize,
        attribs: &Vec<i32>,
    ) -> usize;

    /// Creates a pixmap surface for a configuration, a native pixmap and
    /// a terminated attribute list.  Returns the surface handle, or zero
    /// on failure.
    fn create_pixmap_surface(
        &mut self,
        display: usize,
        config: usize,
        pixmap: usize,
        attribs: &Vec<i32>,
    ) -> usize;

    /// Creates a pixel-buffer surface bound to a client API buffer of the
    /// given kind, for a configuration and a terminated attribute list.
    /// Returns the surface handle, or zero on failure.
    fn create_pbuffer_from_client_buffer(
        &mut self,
        display: usize,
        buffer_kind: u32,
        buffer: usize,
        config: usize,
        attribs: &Vec<i32>,
    ) -> usize;

    /// Creates a window surface through the platform-aware entry point,
    /// for a configuration, a platform window and a terminated attribute
    /// list.  Returns the surface handle, or zero on failure.
    fn create_platform_window_surface(
        &mut self,
        display: usize,
        config: usize,
        native_window: usize,
        attribs: &Vec<i32>,
    ) -> usize;

    /// Creates a pixel-buffer surface for a configuration and a terminated
    /// attribute list.  Returns the surface handle, or zero on failure.
    fn create_pbuffer_surface(&mut self, display: usize, config: usize, attribs: &Vec<i32>) -> usize;

    /// Creates a rendering context for a configuration, an optional context
    /// to share state with (zero for none), and a terminated attribute
    /// list.  Returns the context handle, or zero on failure.
    fn create_context(
        &mut self,
        display: usize,
        config: usize,
        share_context: usize,
        attribs: &Vec<i32>,
    ) -> usize;

    /// Attaches a context and a draw and a read surface to the calling
    /// thread, or detaches them when all three handles are zero.  Returns
    /// the success flag.
    fn make_current(&mut self, display: usize, draw: usize, read: usize, context: usize) -> bool;

    /// Posts a surface's back buffer to its target.  Returns the success
    /// flag.
    fn swap_buffers(&mut self, display: usize, surface: usize) -> bool;

    /// Destroys a surface.  Returns the success flag.
    fn destroy_surface(&mut self, display: usize, surface: usize) -> bool;

    /// Destroys a rendering context.  Returns the success flag.
    fn destroy_context(&mut self, display: usize, context: usize) -> bool;

    /// Queries one attribute of a surface.  Returns the success flag and
    /// the attribute value.
    fn query_surface(&mut self, display: usize, surface: usize, attribute: i32) -> (bool, i32);

    /// Resolves a native function pointer by its exact entry point name.
    /// Returns the address as a plain value, or zero for an unknown name.
    fn get_proc_address(&mut self, procname: &str) -> usize;

    /// Sets the current rendering API of the calling thread.  Returns the
    /// success flag.
    fn bind_api(&mut self, api: u32) -> bool;

    /// Reports the current rendering API of the calling thread.
    fn query_api(&mut self) -> u32;

    /// Defines a two-dimensional texture image from a surface buffer.
    /// Returns the success flag.
    fn bind_tex_image(&mut self, display: usize, surface: usize, buffer: i32) -> bool;

    /// Releases a surface buffer used as a texture.  Returns the success
    /// flag.
    fn release_tex_image(&mut self, display: usize, surface: usize, buffer: i32) -> bool;

    /// Copies a surface's color buffer to a native pixmap.  Returns the
    /// success flag.
    fn copy_buffers(&mut self, display: usize, surface: usize, target: usize) -> bool;

    /// Reports the rendering context current to the calling thread, or
    /// zero when none is current.
    fn get_current_context(&mut self) -> usize;

    /// Reports the display of the context current to the calling thread,
    /// or zero when none is current.
    fn get_current_display(&mut self) -> usize;

    /// Reports the draw or read surface current to the calling thread,
    /// chosen by the readdraw code, or zero when none is current.
    fn get_current_surface(&mut self, readdraw: i32) -> usize;

    /// Reports the extended error code of the most recent native call on
    /// the calling thread.
    fn get_error(&mut self) -> i32;

    /// Queries one attribute of a rendering context.  Returns the success
    /// flag and the attribute value.
    fn query_context(&mut self, display: usize, context: usize, attribute: i32) -> (bool, i32);

    /// Sets one attribute of a surface.  Returns the success flag.
    fn surface_attrib(&mut self, display: usize, surface: usize, attribute: i32, value: i32) -> bool;

    /// Sets the minimum frame periods per buffer swap for the window of
    /// the current context.  Returns the success flag.
    fn swap_interval(&mut self, display: usize, interval: i32) -> bool;

    /// Releases the native library's state for the calling thread.
    /// Returns the success flag.
    fn release_thread(&mut self) -> bool;

    /// Completes client API execution before subsequent native rendering.
    /// Returns the success flag.
    fn wait_client(&mut self) -> bool;

    /// Completes OpenGL ES execution before subsequent native rendering.
    /// Returns the success flag.
    fn wait_gl(&mut self) -> bool;

    /// Completes native rendering of the given engine before subsequent
    /// client API rendering.  Returns the success flag.
    fn wait_native(&mut self, engine: i32) -> bool;
}

} // verus!
