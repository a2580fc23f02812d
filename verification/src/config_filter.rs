//! The configuration selection filter.
//!
//! A filter accumulates up to one optional `(attribute code, value)` pair
//! per selection criterion, flattens the set criteria into a terminated
//! attribute list, and issues the two-call selection query against it.

use vstd::prelude::*;

use crate::backend::Backend;
use crate::display::wrap_reported_configs;
use crate::egl;
use crate::error::{check_native_flag, EglCallError, Error};
use crate::frame_buffer_config::FrameBufferConfigRef;
use crate::{ColorBufferType, ConfigCaveat, RenderableType, SurfaceType, TransparentType};

verus! {

/// The attribute value standing for an optional boolean criterion: the
/// native true or false code, or the don't-care sentinel for an absent
/// choice.
pub open spec fn spec_optional_bool_code(value: Option<bool>) -> i32 {
    match value {
        Option::None => egl::EGL_DONT_CARE,
        Option::Some(true) => egl::EGL_TRUE,
        Option::Some(false) => egl::EGL_FALSE,
    }
}

fn optional_bool_code(value: Option<bool>) -> (r: i32)
    ensures
        r == spec_optional_bool_code(value),
{
    match value {
        None => egl::EGL_DONT_CARE,
        Some(true) => egl::EGL_TRUE,
        Some(false) => egl::EGL_FALSE,
    }
}

/// The attribute value standing for an optional integer criterion: the
/// value itself, or the given sentinel for an absent choice.
pub open spec fn spec_optional_value(value: Option<i32>, absent: i32) -> i32 {
    match value {
        Option::Some(v) => v,
        Option::None => absent,
    }
}

fn optional_value(value: Option<i32>, absent: i32) -> (r: i32)
    ensures
        r == spec_optional_value(value, absent),
{
    match value {
        Some(v) => v,
        None => absent,
    }
}

/// One criterion as it enters the pair list: a single `(code, value)`
/// entry when the criterion is set, nothing when it is absent.
pub open spec fn opt_entry(code: i32, value: Option<i32>) -> Seq<(i32, i32)> {
    match value {
        Option::Some(v) => seq![(code, v)],
        Option::None => Seq::empty(),
    }
}

/// One criterion as it enters the flat attribute list: its code followed
/// by its value when the criterion is set, nothing when it is absent.
pub open spec fn opt_pair(code: i32, value: Option<i32>) -> Seq<i32> {
    match value {
        Option::Some(v) => seq![code, v],
        Option::None => Seq::empty(),
    }
}

/// The flat attribute list a pair sequence denotes: each pair contributes
/// its code and then its value.
pub open spec fn flatten_pairs(s: Seq<(i32, i32)>) -> Seq<i32>
    decreases s.len(),
{
    if s.len() == 0 {
        Seq::empty()
    } else {
        seq![s[0].0, s[0].1] + flatten_pairs(s.skip(1))
    }
}

/// How often `code` occurs as an attribute code in a pair sequence.
pub open spec fn count_code(s: Seq<(i32, i32)>, code: i32) -> nat
    decreases s.len(),
{
    if s.len() == 0 {
        0
    } else {
        (if s[0].0 == code {
            1nat
        } else {
            0nat
        }) + count_code(s.skip(1), code)
    }
}

/// Configuration filter builder for one display.
///
/// Each `with_` call sets or overwrites exactly one criterion — a single
/// atomic `(code, value)` pair; no criterion can be partially specified.
/// Criteria left unset stay out of the attribute list entirely, so the
/// native library applies its own per-criterion default.  The final
/// [`ConfigFilterRef::choose_configs`] call consumes the filter.
#[derive(Copy, Clone, Debug, PartialEq, Eq, Structural)]
pub struct ConfigFilterRef {
    pub handle: egl::EGLDisplay,
    pub alpha_mask_size: Option<i32>,
    pub alpha_size: Option<i32>,
    pub bind_to_texture_rgb: Option<i32>,
    pub bind_to_texture_rgba: Option<i32>,
    pub blue_size: Option<i32>,
    pub buffer_size: Option<i32>,
    pub color_buffer_type: Option<i32>,
    pub config_caveat: Option<i32>,
    pub config_id: Option<i32>,
    pub conformant: Option<i32>,
    pub depth_size: Option<i32>,
    pub green_size: Option<i32>,
    pub level: Option<i32>,
    pub luminance_size: Option<i32>,
    pub match_native_pixmap: Option<i32>,
    pub native_renderable: Option<i32>,
    pub max_swap_interval: Option<i32>,
    pub min_swap_interval: Option<i32>,
    pub red_size: Option<i32>,
    pub sample_buffers: Option<i32>,
    pub samples: Option<i32>,
    pub stencil_size: Option<i32>,
    pub renderable_type: Option<i32>,
    pub surface_type: Option<i32>,
    pub transparent_type: Option<i32>,
    pub transparent_red_value: Option<i32>,
    pub transparent_green_value: Option<i32>,
    pub transparent_blue_value: Option<i32>,
}

impl ConfigFilterRef {
    /// The filter with no criterion set, for one display handle.
    pub open spec fn spec_empty(handle: egl::EGLDisplay) -> ConfigFilterRef {
        ConfigFilterRef {
            handle,
            alpha_mask_size: Option::None,
            alpha_size: Option::None,
            bind_to_texture_rgb: Option::None,
            bind_to_texture_rgba: Option::None,
            blue_size: Option::None,
            buffer_size: Option::None,
            color_buffer_type: Option::None,
            config_caveat: Option::None,
            config_id: Option::None,
            conformant: Option::None,
            depth_size: Option::None,
            green_size: Option::None,
            level: Option::None,
            luminance_size: Option::None,
            match_native_pixmap: Option::None,
            native_renderable: Option::None,
            max_swap_interval: Option::None,
            min_swap_interval: Option::None,
            red_size: Option::None,
            sample_buffers: Option::None,
            samples: Option::None,
            stencil_size: Option::None,
            renderable_type: Option::None,
            surface_type: Option::None,
            transparent_type: Option::None,
            transparent_red_value: Option::None,
            transparent_green_value: Option::None,
            transparent_blue_value: Option::None,
        }
    }

    /// Opens an empty filter for a display handle.
    pub fn from_native(handle: egl::EGLDisplay) -> (r: ConfigFilterRef)
        ensures
            r == ConfigFilterRef::spec_empty(handle),
    {
        ConfigFilterRef {
            handle,
            alpha_mask_size: None,
            alpha_size: None,
            bind_to_texture_rgb: None,
            bind_to_texture_rgba: None,
            blue_size: None,
            buffer_size: None,
            color_buffer_type: None,
            config_caveat: None,
            config_id: None,
            conformant: None,
            depth_size: None,
            green_size: None,
            level: None,
            luminance_size: None,
            match_native_pixmap: None,
            native_renderable: None,
            max_swap_interval: None,
            min_swap_interval: None,
            red_size: None,
            sample_buffers: None,
            samples: None,
            stencil_size: None,
            renderable_type: None,
            surface_type: None,
            transparent_type: None,
            transparent_red_value: None,
            transparent_green_value: None,
            transparent_blue_value: None,
        }
    }

    /// The set criteria in their fixed list order, one `(code, value)`
    /// pair each.
    pub open spec fn spec_criteria(self) -> Seq<(i32, i32)> {
        Seq::empty() + opt_entry(egl::EGL_ALPHA_MASK_SIZE, self.alpha_mask_size) + opt_entry(
            egl::EGL_ALPHA_SIZE,
            self.alpha_size,
        ) + opt_entry(egl::EGL_BIND_TO_TEXTURE_RGB, self.bind_to_texture_rgb) + opt_entry(
            egl::EGL_BIND_TO_TEXTURE_RGBA,
            self.bind_to_texture_rgba,
        ) + opt_entry(egl::EGL_BLUE_SIZE, self.blue_size) + opt_entry(
            egl::EGL_BUFFER_SIZE,
            self.buffer_size,
        ) + opt_entry(egl::EGL_COLOR_BUFFER_TYPE, self.color_buffer_type) + opt_entry(
            egl::EGL_CONFIG_CAVEAT,
            self.config_caveat,
        ) + opt_entry(egl::EGL_CONFIG_ID, self.config_id) + opt_entry(
            egl::EGL_CONFORMANT,
            self.conformant,
        ) + opt_entry(egl::EGL_DEPTH_SIZE, self.depth_size) + opt_entry(
            egl::EGL_GREEN_SIZE,
            self.green_size,
        ) + opt_entry(egl::EGL_LEVEL, self.level) + opt_entry(
            egl::EGL_LUMINANCE_SIZE,
            self.luminance_size,
        ) + opt_entry(egl::EGL_MATCH_NATIVE_PIXMAP, self.match_native_pixmap) + opt_entry(
            egl::EGL_NATIVE_RENDERABLE,
            self.native_renderable,
        ) + opt_entry(egl::EGL_MAX_SWAP_INTERVAL, self.max_swap_interval) + opt_entry(
            egl::EGL_MIN_SWAP_INTERVAL,
            self.min_swap_interval,
        ) + opt_entry(egl::EGL_RED_SIZE, self.red_size) + opt_entry(
            egl::EGL_SAMPLE_BUFFERS,
            self.sample_buffers,
        ) + opt_entry(egl::EGL_SAMPLES, self.samples) + opt_entry(
            egl::EGL_STENCIL_SIZE,
            self.stencil_size,
        ) + opt_entry(egl::EGL_RENDERABLE_TYPE, self.renderable_type) + opt_entry(
            egl::EGL_SURFACE_TYPE,
            self.surface_type,
        ) + opt_entry(egl::EGL_TRANSPARENT_TYPE, self.transparent_type) + opt_entry(
            egl::EGL_TRANSPARENT_RED_VALUE,
            self.transparent_red_value,
        ) + opt_entry(egl::EGL_TRANSPARENT_GREEN_VALUE, self.transparent_green_value) + opt_entry(
            egl::EGL_TRANSPARENT_BLUE_VALUE,
            self.transparent_blue_value,
        )
    }

    /// The value set for an attribute code, if any: the filter keeps at
    /// most one value per code.
    pub open spec fn spec_criterion(self, code: i32) -> Option<i32> {
        if code == egl::EGL_ALPHA_MASK_SIZE {
            self.alpha_mask_size
        } else if code == egl::EGL_ALPHA_SIZE {
            self.alpha_size
        } else if code == egl::EGL_BIND_TO_TEXTURE_RGB {
            self.bind_to_texture_rgb
        } else if code == egl::EGL_BIND_TO_TEXTURE_RGBA {
            self.bind_to_texture_rgba
        } else if code == egl::EGL_BLUE_SIZE {
            self.blue_size
        } else if code == egl::EGL_BUFFER_SIZE {
            self.buffer_size
        } else if code == egl::EGL_COLOR_BUFFER_TYPE {
            self.color_buffer_type
        } else if code == egl::EGL_CONFIG_CAVEAT {
            self.config_caveat
        } else if code == egl::EGL_CONFIG_ID {
            self.config_id
        } else if code == egl::EGL_CONFORMANT {
            self.conformant
        } else if code == egl::EGL_DEPTH_SIZE {
            self.depth_size
        } else if code == egl::EGL_GREEN_SIZE {
            self.green_size
        } else if code == egl::EGL_LEVEL {
            self.level
        } else if code == egl::EGL_LUMINANCE_SIZE {
            self.luminance_size
        } else if code == egl::EGL_MATCH_NATIVE_PIXMAP {
            self.match_native_pixmap
        } else if code == egl::EGL_NATIVE_RENDERABLE {
            self.native_renderable
        } else if code == egl::EGL_MAX_SWAP_INTERVAL {
            self.max_swap_interval
        } else if code == egl::EGL_MIN_SWAP_INTERVAL {
            self.min_swap_interval
        } else if code == egl::EGL_RED_SIZE {
            self.red_size
        } else if code == egl::EGL_SAMPLE_BUFFERS {
            self.sample_buffers
        } else if code == egl::EGL_SAMPLES {
            self.samples
        } else if code == egl::EGL_STENCIL_SIZE {
            self.stencil_size
        } else if code == egl::EGL_RENDERABLE_TYPE {
            self.renderable_type
        } else if code == egl::EGL_SURFACE_TYPE {
            self.surface_type
        } else if code == egl::EGL_TRANSPARENT_TYPE {
            self.transparent_type
        } else if code == egl::EGL_TRANSPARENT_RED_VALUE {
            self.transparent_red_value
        } else if code == egl::EGL_TRANSPARENT_GREEN_VALUE {
            self.transparent_green_value
        } else if code == egl::EGL_TRANSPARENT_BLUE_VALUE {
            self.transparent_blue_value
        } else {
            Option::None
        }
    }

    /// The criteria before the terminator, flattened into attribute list
    /// order.
    pub open spec fn spec_attrib_prefix(self) -> Seq<i32> {
        Seq::empty() + opt_pair(egl::EGL_ALPHA_MASK_SIZE, self.alpha_mask_size) + opt_pair(
            egl::EGL_ALPHA_SIZE,
            self.alpha_size,
        ) + opt_pair(egl::EGL_BIND_TO_TEXTURE_RGB, self.bind_to_texture_rgb) + opt_pair(
            egl::EGL_BIND_TO_TEXTURE_RGBA,
            self.bind_to_texture_rgba,
        ) + opt_pair(egl::EGL_BLUE_SIZE, self.blue_size) + opt_pair(
            egl::EGL_BUFFER_SIZE,
            self.buffer_size,
        ) + opt_pair(egl::EGL_COLOR_BUFFER_TYPE, self.color_buffer_type) + opt_pair(
            egl::EGL_CONFIG_CAVEAT,
            self.config_caveat,
        ) + opt_pair(egl::EGL_CONFIG_ID, self.config_id) + opt_pair(
            egl::EGL_CONFORMANT,
            self.conformant,
        ) + opt_pair(egl::EGL_DEPTH_SIZE, self.depth_size) + opt_pair(
            egl::EGL_GREEN_SIZE,
            self.green_size,
        ) + opt_pair(egl::EGL_LEVEL, self.level) + opt_pair(
            egl::EGL_LUMINANCE_SIZE,
            self.luminance_size,
        ) + opt_pair(egl::EGL_MATCH_NATIVE_PIXMAP, self.match_native_pixmap) + opt_pair(
            egl::EGL_NATIVE_RENDERABLE,
            self.native_renderable,
        ) + opt_pair(egl::EGL_MAX_SWAP_INTERVAL, self.max_swap_interval) + opt_pair(
            egl::EGL_MIN_SWAP_INTERVAL,
            self.min_swap_interval,
        ) + opt_pair(egl::EGL_RED_SIZE, self.red_size) + opt_pair(
            egl::EGL_SAMPLE_BUFFERS,
            self.sample_buffers,
        ) + opt_pair(egl::EGL_SAMPLES, self.samples) + opt_pair(
            egl::EGL_STENCIL_SIZE,
            self.stencil_size,
        ) + opt_pair(egl::EGL_RENDERABLE_TYPE, self.renderable_type) + opt_pair(
            egl::EGL_SURFACE_TYPE,
            self.surface_type,
        ) + opt_pair(egl::EGL_TRANSPARENT_TYPE, self.transparent_type) + opt_pair(
            egl::EGL_TRANSPARENT_RED_VALUE,
            self.transparent_red_value,
        ) + opt_pair(egl::EGL_TRANSPARENT_GREEN_VALUE, self.transparent_green_value) + opt_pair(
            egl::EGL_TRANSPARENT_BLUE_VALUE,
            self.transparent_blue_value,
        )
    }

    /// The full attribute list the selection query hands to the native
    /// library: every set criterion in order, then the terminator.
    pub open spec fn spec_attrib_list(self) -> Seq<i32> {
        self.spec_attrib_prefix() + seq![egl::EGL_NONE]
    }

    /// Sets the minimum alpha mask buffer size criterion, in bits.
    pub fn with_alpha_mask_size(self, min_size: u32) -> (r: Self)
        ensures
            r == (ConfigFilterRef { alpha_mask_size: Option::Some(min_size as i32), ..self }),
    {
        ConfigFilterRef { alpha_mask_size: Some(min_size as i32), ..self }
    }

    /// Sets the minimum alpha component size criterion, in bits.
    pub fn with_alpha_size(self, min_size: u32) -> (r: Self)
        ensures
            r == (ConfigFilterRef { alpha_size: Option::Some(min_size as i32), ..self }),
    {
        ConfigFilterRef { alpha_size: Some(min_size as i32), ..self }
    }

    /// Sets the bind-to-RGB-texture criterion: `Some(true)` or
    /// `Some(false)` match exactly, `None` stands for don't-care.
    pub fn with_bind_to_texture_rgb(self, value: Option<bool>) -> (r: Self)
        ensures
            r == (ConfigFilterRef {
                bind_to_texture_rgb: Option::Some(spec_optional_bool_code(value)),
                ..self
            }),
    {
        ConfigFilterRef { bind_to_texture_rgb: Some(optional_bool_code(value)), ..self }
    }

    /// Sets the bind-to-RGBA-texture criterion: `Some(true)` or
    /// `Some(false)` match exactly, `None` stands for don't-care.
    pub fn with_bind_to_texture_rgba(self, value: Option<bool>) -> (r: Self)
        ensures
            r == (ConfigFilterRef {
                bind_to_texture_rgba: Option::Some(spec_optional_bool_code(value)),
                ..self
            }),
    {
        ConfigFilterRef { bind_to_texture_rgba: Some(optional_bool_code(value)), ..self }
    }

    /// Sets the minimum blue component size criterion, in bits.
    pub fn with_blue_size(self, min_size: u32) -> (r: Self)
        ensures
            r == (ConfigFilterRef { blue_size: Option::Some(min_size as i32), ..self }),
    {
        ConfigFilterRef { blue_size: Some(min_size as i32), ..self }
    }

    /// Sets the minimum color buffer size criterion, in bits.
    pub fn with_buffer_size(self, min_size: u32) -> (r: Self)
        ensures
            r == (ConfigFilterRef { buffer_size: Option::Some(min_size as i32), ..self }),
    {
        ConfigFilterRef { buffer_size: Some(min_size as i32), ..self }
    }

    /// Sets the color buffer type criterion.
    pub fn with_color_buffer_type(self, value: ColorBufferType) -> (r: Self)
        ensures
            r == (ConfigFilterRef { color_buffer_type: Option::Some(value.spec_raw()), ..self }),
    {
        let code = value.raw();
        ConfigFilterRef { color_buffer_type: Some(code), ..self }
    }

    /// Sets the caveat criterion: a concrete caveat matches exactly,
    /// `None` stands for don't-care.
    pub fn with_config_caveat(self, value: Option<ConfigCaveat>) -> (r: Self)
        ensures
            r == (ConfigFilterRef {
                config_caveat: Option::Some(
                    match value {
                        Option::Some(c) => c.spec_raw(),
                        Option::None => egl::EGL_DONT_CARE,
                    },
                ),
                ..self
            }),
    {
        let code = match value {
            Some(c) => c.raw(),
            None => egl::EGL_DONT_CARE,
        };
        ConfigFilterRef { config_caveat: Some(code), ..self }
    }

    /// Sets the configuration identifier criterion; when a concrete
    /// identifier is given, the native library ignores every other
    /// criterion.  `None` stands for don't-care.
    pub fn with_config_id(self, value: Option<i32>) -> (r: Self)
        ensures
            r == (ConfigFilterRef {
                config_id: Option::Some(spec_optional_value(value, egl::EGL_DONT_CARE)),
                ..self
            }),
    {
        ConfigFilterRef { config_id: Some(optional_value(value, egl::EGL_DONT_CARE)), ..self }
    }

    /// Sets the conformance mask criterion: every set bit must be
    /// conformant for the configuration.
    pub fn with_conformant(self, value: RenderableType) -> (r: Self)
        ensures
            r == (ConfigFilterRef { conformant: Option::Some(value.bits), ..self }),
    {
        ConfigFilterRef { conformant: Some(value.bits()), ..self }
    }

    /// Sets the minimum depth buffer size criterion, in bits.
    pub fn with_depth_size(self, min_size: u32) -> (r: Self)
        ensures
            r == (ConfigFilterRef { depth_size: Option::Some(min_size as i32), ..self }),
    {
        ConfigFilterRef { depth_size: Some(min_size as i32), ..self }
    }

    /// Sets the minimum green component size criterion, in bits.
    pub fn with_green_size(self, min_size: u32) -> (r: Self)
        ensures
            r == (ConfigFilterRef { green_size: Option::Some(min_size as i32), ..self }),
    {
        ConfigFilterRef { green_size: Some(min_size as i32), ..self }
    }

    /// Sets the buffer level criterion; this one is honored exactly, with
    /// zero for the default frame buffer.
    pub fn with_level(self, level: i32) -> (r: Self)
        ensures
            r == (ConfigFilterRef { level: Option::Some(level), ..self }),
    {
        ConfigFilterRef { level: Some(level), ..self }
    }

    /// Sets the minimum luminance component size criterion, in bits.
    pub fn with_luminance_size(self, min_size: u32) -> (r: Self)
        ensures
            r == (ConfigFilterRef { luminance_size: Option::Some(min_size as i32), ..self }),
    {
        ConfigFilterRef { luminance_size: Some(min_size as i32), ..self }
    }

    /// Sets the native pixmap match criterion: the handle of a native
    /// pixmap the configuration must support, or `None` to leave the
    /// criterion unmatched (its absent value is the none code, not the
    /// don't-care sentinel).
    pub fn with_match_native_pixmap(self, handle: Option<i32>) -> (r: Self)
        ensures
            r == (ConfigFilterRef {
                match_native_pixmap: Option::Some(spec_optional_value(handle, egl::EGL_NONE)),
                ..self
            }),
    {
        ConfigFilterRef {
            match_native_pixmap: Some(optional_value(handle, egl::EGL_NONE)),
            ..self
        }
    }

    /// Sets the native renderable criterion: `Some(true)` or `Some(false)`
    /// match exactly, `None` stands for don't-care.
    pub fn with_native_renderable(self, value: Option<bool>) -> (r: Self)
        ensures
            r == (ConfigFilterRef {
                native_renderable: Option::Some(spec_optional_bool_code(value)),
                ..self
            }),
    {
        ConfigFilterRef { native_renderable: Some(optional_bool_code(value)), ..self }
    }

    /// Sets the maximum swap interval criterion; `None` stands for
    /// don't-care.
    pub fn with_max_swap_interval(self, value: Option<i32>) -> (r: Self)
        ensures
            r == (ConfigFilterRef {
                max_swap_interval: Option::Some(spec_optional_value(value, egl::EGL_DONT_CARE)),
                ..self
            }),
    {
        ConfigFilterRef {
            max_swap_interval: Some(optional_value(value, egl::EGL_DONT_CARE)),
            ..self
        }
    }

    /// Sets the minimum swap interval criterion; `None` stands for
    /// don't-care.
    pub fn with_min_swap_interval(self, value: Option<i32>) -> (r: Self)
        ensures
            r == (ConfigFilterRef {
                min_swap_interval: Option::Some(spec_optional_value(value, egl::EGL_DONT_CARE)),
                ..self
            }),
    {
        ConfigFilterRef {
            min_swap_interval: Some(optional_value(value, egl::EGL_DONT_CARE)),
            ..self
        }
    }

    /// Sets the minimum red component size criterion, in bits.
    pub fn with_red_size(self, min_size: u32) -> (r: Self)
        ensures
            r == (ConfigFilterRef { red_size: Option::Some(min_size as i32), ..self }),
    {
        ConfigFilterRef { red_size: Some(min_size as i32), ..self }
    }

    /// Sets the minimum number of multisample buffers criterion; only zero
    /// and one produce matches.
    pub fn with_sample_buffers(self, value: i32) -> (r: Self)
        ensures
            r == (ConfigFilterRef { sample_buffers: Option::Some(value), ..self }),
    {
        ConfigFilterRef { sample_buffers: Some(value), ..self }
    }

    /// Sets the minimum number of samples per pixel criterion.
    pub fn with_samples(self, value: i32) -> (r: Self)
        ensures
            r == (ConfigFilterRef { samples: Option::Some(value), ..self }),
    {
        ConfigFilterRef { samples: Some(value), ..self }
    }

    /// Sets the minimum stencil buffer size criterion, in bits.
    pub fn with_stencil_size(self, value: u32) -> (r: Self)
        ensures
            r == (ConfigFilterRef { stencil_size: Option::Some(value as i32), ..self }),
    {
        ConfigFilterRef { stencil_size: Some(value as i32), ..self }
    }

    /// Sets the renderable type mask criterion: the client APIs the
    /// configuration must support creating contexts for.
    pub fn with_renderable_type(self, value: RenderableType) -> (r: Self)
        ensures
            r == (ConfigFilterRef { renderable_type: Option::Some(value.bits), ..self }),
    {
        ConfigFilterRef { renderable_type: Some(value.bits()), ..self }
    }

    /// Sets the surface type mask criterion: the surface kinds and
    /// capabilities the configuration must support.
    pub fn with_surface_type(self, value: SurfaceType) -> (r: Self)
        ensures
            r == (ConfigFilterRef { surface_type: Option::Some(value.bits), ..self }),
    {
        ConfigFilterRef { surface_type: Some(value.bits()), ..self }
    }

    /// Sets the transparency kind criterion.
    pub fn with_transparent_type(self, value: TransparentType) -> (r: Self)
        ensures
            r == (ConfigFilterRef { transparent_type: Option::Some(value.spec_raw()), ..self }),
    {
        let code = value.raw();
        ConfigFilterRef { transparent_type: Some(code), ..self }
    }

    /// Sets the transparent red value criterion; `None` stands for
    /// don't-care.
    pub fn with_transparent_red_value(self, value: Option<u32>) -> (r: Self)
        ensures
            r == (ConfigFilterRef {
                transparent_red_value: Option::Some(
                    match value {
                        Option::Some(v) => v as i32,
                        Option::None => egl::EGL_DONT_CARE,
                    },
                ),
                ..self
            }),
    {
        let code = match value {
            Some(v) => v as i32,
            None => egl::EGL_DONT_CARE,
        };
        ConfigFilterRef { transparent_red_value: Some(code), ..self }
    }

    /// Sets the transparent green value criterion; `None` stands for
    /// don't-care.
    pub fn with_transparent_green_value(self, value: Option<u32>) -> (r: Self)
        ensures
            r == (ConfigFilterRef {
                transparent_green_value: Option::Some(
                    match value {
                        Option::Some(v) => v as i32,
                        Option::None => egl::EGL_DONT_CARE,
                    },
                ),
                ..self
            }),
    {
        let code = match value {
            Some(v) => v as i32,
            None => egl::EGL_DONT_CARE,
        };
        ConfigFilterRef { transparent_green_value: Some(code), ..self }
    }

    /// Sets the transparent blue value criterion; `None` stands for
    /// don't-care.
    pub fn with_transparent_blue_value(self, value: Option<u32>) -> (r: Self)
        ensures
            r == (ConfigFilterRef {
                transparent_blue_value: Option::Some(
                    match value {
                        Option::Some(v) => v as i32,
                        Option::None => egl::EGL_DONT_CARE,
                    },
                ),
                ..self
            }),
    {
        let code = match value {
            Some(v) => v as i32,
            None => egl::EGL_DONT_CARE,
        };
        ConfigFilterRef { transparent_blue_value: Some(code), ..self }
    }

    /// Builds the attribute list this filter denotes: every set criterion
    /// as its `(code, value)` pair in fixed order, then the terminator.
    pub fn attrib_list(&self) -> (r: Vec<i32>)
        ensures
            r@ == self.spec_attrib_list(),
    {
        let mut list: Vec<i32> = Vec::new();
        push_criterion(&mut list, egl::EGL_ALPHA_MASK_SIZE, self.alpha_mask_size);
        push_criterion(&mut list, egl::EGL_ALPHA_SIZE, self.alpha_size);
        push_criterion(&mut list, egl::EGL_BIND_TO_TEXTURE_RGB, self.bind_to_texture_rgb);
        push_criterion(&mut list, egl::EGL_BIND_TO_TEXTURE_RGBA, self.bind_to_texture_rgba);
        push_criterion(&mut list, egl::EGL_BLUE_SIZE, self.blue_size);
        push_criterion(&mut list, egl::EGL_BUFFER_SIZE, self.buffer_size);
        push_criterion(&mut list, egl::EGL_COLOR_BUFFER_TYPE, self.color_buffer_type);
        push_criterion(&mut list, egl::EGL_CONFIG_CAVEAT, self.config_caveat);
        push_criterion(&mut list, egl::EGL_CONFIG_ID, self.config_id);
        push_criterion(&mut list, egl::EGL_CONFORMANT, self.conformant);
        push_criterion(&mut list, egl::EGL_DEPTH_SIZE, self.depth_size);
        push_criterion(&mut list, egl::EGL_GREEN_SIZE, self.green_size);
        push_criterion(&mut list, egl::EGL_LEVEL, self.level);
        push_criterion(&mut list, egl::EGL_LUMINANCE_SIZE, self.luminance_size);
        push_criterion(&mut list, egl::EGL_MATCH_NATIVE_PIXMAP, self.match_native_pixmap);
        push_criterion(&mut list, egl::EGL_NATIVE_RENDERABLE, self.native_renderable);
        push_criterion(&mut list, egl::EGL_MAX_SWAP_INTERVAL, self.max_swap_interval);
        push_criterion(&mut list, egl::EGL_MIN_SWAP_INTERVAL, self.min_swap_interval);
        push_criterion(&mut list, egl::EGL_RED_SIZE, self.red_size);
        push_criterion(&mut list, egl::EGL_SAMPLE_BUFFERS, self.sample_buffers);
        push_criterion(&mut list, egl::EGL_SAMPLES, self.samples);
        push_criterion(&mut list, egl::EGL_STENCIL_SIZE, self.stencil_size);
        push_criterion(&mut list, egl::EGL_RENDERABLE_TYPE, self.renderable_type);
        push_criterion(&mut list, egl::EGL_SURFACE_TYPE, self.surface_type);
        push_criterion(&mut list, egl::EGL_TRANSPARENT_TYPE, self.transparent_type);
        push_criterion(&mut list, egl::EGL_TRANSPARENT_RED_VALUE, self.transparent_red_value);
        push_criterion(&mut list, egl::EGL_TRANSPARENT_GREEN_VALUE, self.transparent_green_value);
        push_criterion(&mut list, egl::EGL_TRANSPARENT_BLUE_VALUE, self.transparent_blue_value);
        assert(list@ == self.spec_attrib_prefix());
        list.push(egl::EGL_NONE);
        assert(list@ =~= self.spec_attrib_list());
        list
    }

    /// Selects the configurations of this display matching the filter.
    ///
    /// Issues the two-call selection pattern against the built attribute
    /// list: a count query first, then a fill into a buffer of exactly
    /// that count.  The result holds exactly as many references as the
    /// fill call reported written, in the native library's preference
    /// order; an empty result is a valid, non-error outcome.  Fails only
    /// with the choose-config tag, exactly when either native call reports
    /// failure.
    pub fn choose_configs<B: Backend>(self, backend: &mut B) -> (r: Result<
        Vec<FrameBufferConfigRef>,
        Error,
    >)
        ensures
            r matches Err(e) ==> e == Error::Egl(EglCallError::ChooseConfig),
            r matches Ok(v) ==> forall|i: int|
                0 <= i < v@.len() ==> v@[i].spec_display_handle() == self.handle,
    {
        let attribs = self.attrib_list();
        let (count_ok, count) = backend.choose_configs_count(self.handle, &attribs);
        match check_native_flag(count_ok, EglCallError::ChooseConfig) {
            Ok(_) => {},
            Err(e) => {
                return Err(e);
            },
        }
        let (fill_ok, handles, reported) = backend.choose_configs_fill(
            self.handle,
            &attribs,
            count,
        );
        match check_native_flag(fill_ok, EglCallError::ChooseConfig) {
            Ok(_) => {},
            Err(e) => {
                return Err(e);
            },
        }
        Ok(wrap_reported_configs(self.handle, &handles, reported))
    }
}

/// Appends one criterion to the attribute list under construction:
/// nothing when it is absent, its code and then its value when it is set.
fn push_criterion(list: &mut Vec<i32>, code: i32, value: Option<i32>)
    ensures
        final(list)@ == old(list)@ + opt_pair(code, value),
{
    match value {
        Some(v) => {
            list.push(code);
            list.push(v);
            assert(list@ =~= old(list)@ + opt_pair(code, value));
        },
        None => {
            assert(list@ =~= old(list)@ + opt_pair(code, value));
        },
    }
}

/// How often a code occurs in the concatenation of two pair sequences:
/// the occurrences of each part, added.
proof fn lemma_count_code_add(a: Seq<(i32, i32)>, b: Seq<(i32, i32)>, code: i32)
    ensures
        count_code(a + b, code) == count_code(a, code) + count_code(b, code),
    decreases a.len(),
{
    if a.len() == 0 {
        assert(a + b =~= b);
    } else {
        assert((a + b).skip(1) =~= a.skip(1) + b);
        lemma_count_code_add(a.skip(1), b, code);
    }
}

/// A single criterion contributes its code once when it is set with that
/// code, and nothing otherwise.
proof fn lemma_count_code_opt_entry(c: i32, v: Option<i32>, code: i32)
    ensures
        count_code(opt_entry(c, v), code) == (if v is Some && c == code {
            1nat
        } else {
            0nat
        }),
{
    match v {
        Option::Some(x) => {
            assert(opt_entry(c, v) == seq![(c, x)]);
            assert(seq![(c, x)].skip(1) =~= Seq::<(i32, i32)>::empty());
            assert(count_code(Seq::<(i32, i32)>::empty(), code) == 0);
        },
        Option::None => {
            assert(count_code(Seq::<(i32, i32)>::empty(), code) == 0);
        },
    }
}

/// Flattening distributes over concatenation of pair sequences.
proof fn lemma_flatten_pairs_add(a: Seq<(i32, i32)>, b: Seq<(i32, i32)>)
    ensures
        flatten_pairs(a + b) == flatten_pairs(a) + flatten_pairs(b),
    decreases a.len(),
{
    if a.len() == 0 {
        assert(a + b =~= b);
        assert(flatten_pairs(a) + flatten_pairs(b) =~= flatten_pairs(b));
    } else {
        assert((a + b).skip(1) =~= a.skip(1) + b);
        lemma_flatten_pairs_add(a.skip(1), b);
        assert(seq![a[0].0, a[0].1] + (flatten_pairs(a.skip(1)) + flatten_pairs(b)) =~= (seq![
            a[0].0,
            a[0].1,
        ] + flatten_pairs(a.skip(1))) + flatten_pairs(b));
    }
}

/// A single criterion flattens to its code-and-value pair, or to nothing
/// when it is absent.
proof fn lemma_flatten_opt_entry(c: i32, v: Option<i32>)
    ensures
        flatten_pairs(opt_entry(c, v)) == opt_pair(c, v),
{
    match v {
        Option::Some(x) => {
            assert(opt_entry(c, v) == seq![(c, x)]);
            assert(seq![(c, x)].skip(1) =~= Seq::<(i32, i32)>::empty());
            assert(flatten_pairs(Seq::<(i32, i32)>::empty()) =~= Seq::<i32>::empty());
            assert(seq![c, x] + flatten_pairs(Seq::<(i32, i32)>::empty()) =~= seq![c, x]);
        },
        Option::None => {
            assert(flatten_pairs(Seq::<(i32, i32)>::empty()) =~= Seq::<i32>::empty());
        },
    }
}

/// Law: the criterion pair list never repeats an attribute code.  A code
/// whose criterion is set occurs exactly once — carrying the one stored
/// value, which each `with_` call overwrites — and a code whose criterion
/// is unset does not occur at all.
pub proof fn lemma_criteria_codes_unique(f: ConfigFilterRef, code: i32)
    ensures
        count_code(f.spec_criteria(), code) == (if f.spec_criterion(code) is Some {
            1nat
        } else {
            0nat
        }),
{
    let p0 = Seq::<(i32, i32)>::empty();
    lemma_count_code_add(p0, opt_entry(egl::EGL_ALPHA_MASK_SIZE, f.alpha_mask_size), code);
    lemma_count_code_opt_entry(egl::EGL_ALPHA_MASK_SIZE, f.alpha_mask_size, code);
    let p1 = p0 + opt_entry(egl::EGL_ALPHA_MASK_SIZE, f.alpha_mask_size);
    lemma_count_code_add(p1, opt_entry(egl::EGL_ALPHA_SIZE, f.alpha_size), code);
    lemma_count_code_opt_entry(egl::EGL_ALPHA_SIZE, f.alpha_size, code);
    let p2 = p1 + opt_entry(egl::EGL_ALPHA_SIZE, f.alpha_size);
    lemma_count_code_add(p2, opt_entry(egl::EGL_BIND_TO_TEXTURE_RGB, f.bind_to_texture_rgb), code);
    lemma_count_code_opt_entry(egl::EGL_BIND_TO_TEXTURE_RGB, f.bind_to_texture_rgb, code);
    let p3 = p2 + opt_entry(egl::EGL_BIND_TO_TEXTURE_RGB, f.bind_to_texture_rgb);
    lemma_count_code_add(p3, opt_entry(egl::EGL_BIND_TO_TEXTURE_RGBA, f.bind_to_texture_rgba), code);
    lemma_count_code_opt_entry(egl::EGL_BIND_TO_TEXTURE_RGBA, f.bind_to_texture_rgba, code);
    let p4 = p3 + opt_entry(egl::EGL_BIND_TO_TEXTURE_RGBA, f.bind_to_texture_rgba);
    lemma_count_code_add(p4, opt_entry(egl::EGL_BLUE_SIZE, f.blue_size), code);
    lemma_count_code_opt_entry(egl::EGL_BLUE_SIZE, f.blue_size, code);
    let p5 = p4 + opt_entry(egl::EGL_BLUE_SIZE, f.blue_size);
    lemma_count_code_add(p5, opt_entry(egl::EGL_BUFFER_SIZE, f.buffer_size), code);
    lemma_count_code_opt_entry(egl::EGL_BUFFER_SIZE, f.buffer_size, code);
    let p6 = p5 + opt_entry(egl::EGL_BUFFER_SIZE, f.buffer_size);
    lemma_count_code_add(p6, opt_entry(egl::EGL_COLOR_BUFFER_TYPE, f.color_buffer_type), code);
    lemma_count_code_opt_entry(egl::EGL_COLOR_BUFFER_TYPE, f.color_buffer_type, code);
    let p7 = p6 + opt_entry(egl::EGL_COLOR_BUFFER_TYPE, f.color_buffer_type);
    lemma_count_code_add(p7, opt_entry(egl::EGL_CONFIG_CAVEAT, f.config_caveat), code);
    lemma_count_code_opt_entry(egl::EGL_CONFIG_CAVEAT, f.config_caveat, code);
    let p8 = p7 + opt_entry(egl::EGL_CONFIG_CAVEAT, f.config_caveat);
    lemma_count_code_add(p8, opt_entry(egl::EGL_CONFIG_ID, f.config_id), code);
    lemma_count_code_opt_entry(egl::EGL_CONFIG_ID, f.config_id, code);
    let p9 = p8 + opt_entry(egl::EGL_CONFIG_ID, f.config_id);
    lemma_count_code_add(p9, opt_entry(egl::EGL_CONFORMANT, f.conformant), code);
    lemma_count_code_opt_entry(egl::EGL_CONFORMANT, f.conformant, code);
    let p10 = p9 + opt_entry(egl::EGL_CONFORMANT, f.conformant);
    lemma_count_code_add(p10, opt_entry(egl::EGL_DEPTH_SIZE, f.depth_size), code);
    lemma_count_code_opt_entry(egl::EGL_DEPTH_SIZE, f.depth_size, code);
    let p11 = p10 + opt_entry(egl::EGL_DEPTH_SIZE, f.depth_size);
    lemma_count_code_add(p11, opt_entry(egl::EGL_GREEN_SIZE, f.green_size), code);
    lemma_count_code_opt_entry(egl::EGL_GREEN_SIZE, f.green_size, code);
    let p12 = p11 + opt_entry(egl::EGL_GREEN_SIZE, f.green_size);
    lemma_count_code_add(p12, opt_entry(egl::EGL_LEVEL, f.level), code);
    lemma_count_code_opt_entry(egl::EGL_LEVEL, f.level, code);
    let p13 = p12 + opt_entry(egl::EGL_LEVEL, f.level);
    lemma_count_code_add(p13, opt_entry(egl::EGL_LUMINANCE_SIZE, f.luminance_size), code);
    lemma_count_code_opt_entry(egl::EGL_LUMINANCE_SIZE, f.luminance_size, code);
    let p14 = p13 + opt_entry(egl::EGL_LUMINANCE_SIZE, f.luminance_size);
    lemma_count_code_add(p14, opt_entry(egl::EGL_MATCH_NATIVE_PIXMAP, f.match_native_pixmap), code);
    lemma_count_code_opt_entry(egl::EGL_MATCH_NATIVE_PIXMAP, f.match_native_pixmap, code);
    let p15 = p14 + opt_entry(egl::EGL_MATCH_NATIVE_PIXMAP, f.match_native_pixmap);
    lemma_count_code_add(p15, opt_entry(egl::EGL_NATIVE_RENDERABLE, f.native_renderable), code);
    lemma_count_code_opt_entry(egl::EGL_NATIVE_RENDERABLE, f.native_renderable, code);
    let p16 = p15 + opt_entry(egl::EGL_NATIVE_RENDERABLE, f.native_renderable);
    lemma_count_code_add(p16, opt_entry(egl::EGL_MAX_SWAP_INTERVAL, f.max_swap_interval), code);
    lemma_count_code_opt_entry(egl::EGL_MAX_SWAP_INTERVAL, f.max_swap_interval, code);
    let p17 = p16 + opt_entry(egl::EGL_MAX_SWAP_INTERVAL, f.max_swap_interval);
    lemma_count_code_add(p17, opt_entry(egl::EGL_MIN_SWAP_INTERVAL, f.min_swap_interval), code);
    lemma_count_code_opt_entry(egl::EGL_MIN_SWAP_INTERVAL, f.min_swap_interval, code);
    let p18 = p17 + opt_entry(egl::EGL_MIN_SWAP_INTERVAL, f.min_swap_interval);
    lemma_count_code_add(p18, opt_entry(egl::EGL_RED_SIZE, f.red_size), code);
    lemma_count_code_opt_entry(egl::EGL_RED_SIZE, f.red_size, code);
    let p19 = p18 + opt_entry(egl::EGL_RED_SIZE, f.red_size);
    lemma_count_code_add(p19, opt_entry(egl::EGL_SAMPLE_BUFFERS, f.sample_buffers), code);
    lemma_count_code_opt_entry(egl::EGL_SAMPLE_BUFFERS, f.sample_buffers, code);
    let p20 = p19 + opt_entry(egl::EGL_SAMPLE_BUFFERS, f.sample_buffers);
    lemma_count_code_add(p20, opt_entry(egl::EGL_SAMPLES, f.samples), code);
    lemma_count_code_opt_entry(egl::EGL_SAMPLES, f.samples, code);
    let p21 = p20 + opt_entry(egl::EGL_SAMPLES, f.samples);
    lemma_count_code_add(p21, opt_entry(egl::EGL_STENCIL_SIZE, f.stencil_size), code);
    lemma_count_code_opt_entry(egl::EGL_STENCIL_SIZE, f.stencil_size, code);
    let p22 = p21 + opt_entry(egl::EGL_STENCIL_SIZE, f.stencil_size);
    lemma_count_code_add(p22, opt_entry(egl::EGL_RENDERABLE_TYPE, f.renderable_type), code);
    lemma_count_code_opt_entry(egl::EGL_RENDERABLE_TYPE, f.renderable_type, code);
    let p23 = p22 + opt_entry(egl::EGL_RENDERABLE_TYPE, f.renderable_type);
    lemma_count_code_add(p23, opt_entry(egl::EGL_SURFACE_TYPE, f.surface_type), code);
    lemma_count_code_opt_entry(egl::EGL_SURFACE_TYPE, f.surface_type, code);
    let p24 = p23 + opt_entry(egl::EGL_SURFACE_TYPE, f.surface_type);
    lemma_count_code_add(p24, opt_entry(egl::EGL_TRANSPARENT_TYPE, f.transparent_type), code);
    lemma_count_code_opt_entry(egl::EGL_TRANSPARENT_TYPE, f.transparent_type, code);
    let p25 = p24 + opt_entry(egl::EGL_TRANSPARENT_TYPE, f.transparent_type);
    lemma_count_code_add(p25, opt_entry(egl::EGL_TRANSPARENT_RED_VALUE, f.transparent_red_value), code);
    lemma_count_code_opt_entry(egl::EGL_TRANSPARENT_RED_VALUE, f.transparent_red_value, code);
    let p26 = p25 + opt_entry(egl::EGL_TRANSPARENT_RED_VALUE, f.transparent_red_value);
    lemma_count_code_add(p26, opt_entry(egl::EGL_TRANSPARENT_GREEN_VALUE, f.transparent_green_value), code);
    lemma_count_code_opt_entry(egl::EGL_TRANSPARENT_GREEN_VALUE, f.transparent_green_value, code);
    let p27 = p26 + opt_entry(egl::EGL_TRANSPARENT_GREEN_VALUE, f.transparent_green_value);
    lemma_count_code_add(p27, opt_entry(egl::EGL_TRANSPARENT_BLUE_VALUE, f.transparent_blue_value), code);
    lemma_count_code_opt_entry(egl::EGL_TRANSPARENT_BLUE_VALUE, f.transparent_blue_value, code);
    let p28 = p27 + opt_entry(egl::EGL_TRANSPARENT_BLUE_VALUE, f.transparent_blue_value);
    assert(f.spec_criteria() == p28);
}

/// Law: the flat attribute list is exactly the criterion pair list
/// flattened, followed by the terminator.  With
/// [`lemma_criteria_codes_unique`] this carries the no-duplicate-codes law
/// over to the list the native library receives.
pub proof fn lemma_attrib_list_flattens_criteria(f: ConfigFilterRef)
    ensures
        f.spec_attrib_list() == flatten_pairs(f.spec_criteria()) + seq![egl::EGL_NONE],
{
    let p0 = Seq::<(i32, i32)>::empty();
    lemma_flatten_pairs_add(p0, opt_entry(egl::EGL_ALPHA_MASK_SIZE, f.alpha_mask_size));
    lemma_flatten_opt_entry(egl::EGL_ALPHA_MASK_SIZE, f.alpha_mask_size);
    let p1 = p0 + opt_entry(egl::EGL_ALPHA_MASK_SIZE, f.alpha_mask_size);
    lemma_flatten_pairs_add(p1, opt_entry(egl::EGL_ALPHA_SIZE, f.alpha_size));
    lemma_flatten_opt_entry(egl::EGL_ALPHA_SIZE, f.alpha_size);
    let p2 = p1 + opt_entry(egl::EGL_ALPHA_SIZE, f.alpha_size);
    lemma_flatten_pairs_add(p2, opt_entry(egl::EGL_BIND_TO_TEXTURE_RGB, f.bind_to_texture_rgb));
    lemma_flatten_opt_entry(egl::EGL_BIND_TO_TEXTURE_RGB, f.bind_to_texture_rgb);
    let p3 = p2 + opt_entry(egl::EGL_BIND_TO_TEXTURE_RGB, f.bind_to_texture_rgb);
    lemma_flatten_pairs_add(p3, opt_entry(egl::EGL_BIND_TO_TEXTURE_RGBA, f.bind_to_texture_rgba));
    lemma_flatten_opt_entry(egl::EGL_BIND_TO_TEXTURE_RGBA, f.bind_to_texture_rgba);
    let p4 = p3 + opt_entry(egl::EGL_BIND_TO_TEXTURE_RGBA, f.bind_to_texture_rgba);
    lemma_flatten_pairs_add(p4, opt_entry(egl::EGL_BLUE_SIZE, f.blue_size));
    lemma_flatten_opt_entry(egl::EGL_BLUE_SIZE, f.blue_size);
    let p5 = p4 + opt_entry(egl::EGL_BLUE_SIZE, f.blue_size);
    lemma_flatten_pairs_add(p5, opt_entry(egl::EGL_BUFFER_SIZE, f.buffer_size));
    lemma_flatten_opt_entry(egl::EGL_BUFFER_SIZE, f.buffer_size);
    let p6 = p5 + opt_entry(egl::EGL_BUFFER_SIZE, f.buffer_size);
    lemma_flatten_pairs_add(p6, opt_entry(egl::EGL_COLOR_BUFFER_TYPE, f.color_buffer_type));
    lemma_flatten_opt_entry(egl::EGL_COLOR_BUFFER_TYPE, f.color_buffer_type);
    let p7 = p6 + opt_entry(egl::EGL_COLOR_BUFFER_TYPE, f.color_buffer_type);
    lemma_flatten_pairs_add(p7, opt_entry(egl::EGL_CONFIG_CAVEAT, f.config_caveat));
    lemma_flatten_opt_entry(egl::EGL_CONFIG_CAVEAT, f.config_caveat);
    let p8 = p7 + opt_entry(egl::EGL_CONFIG_CAVEAT, f.config_caveat);
    lemma_flatten_pairs_add(p8, opt_entry(egl::EGL_CONFIG_ID, f.config_id));
    lemma_flatten_opt_entry(egl::EGL_CONFIG_ID, f.config_id);
    let p9 = p8 + opt_entry(egl::EGL_CONFIG_ID, f.config_id);
    lemma_flatten_pairs_add(p9, opt_entry(egl::EGL_CONFORMANT, f.conformant));
    lemma_flatten_opt_entry(egl::EGL_CONFORMANT, f.conformant);
    let p10 = p9 + opt_entry(egl::EGL_CONFORMANT, f.conformant);
    lemma_flatten_pairs_add(p10, opt_entry(egl::EGL_DEPTH_SIZE, f.depth_size));
    lemma_flatten_opt_entry(egl::EGL_DEPTH_SIZE, f.depth_size);
    let p11 = p10 + opt_entry(egl::EGL_DEPTH_SIZE, f.depth_size);
    lemma_flatten_pairs_add(p11, opt_entry(egl::EGL_GREEN_SIZE, f.green_size));
    lemma_flatten_opt_entry(egl::EGL_GREEN_SIZE, f.green_size);
    let p12 = p11 + opt_entry(egl::EGL_GREEN_SIZE, f.green_size);
    lemma_flatten_pairs_add(p12, opt_entry(egl::EGL_LEVEL, f.level));
    lemma_flatten_opt_entry(egl::EGL_LEVEL, f.level);
    let p13 = p12 + opt_entry(egl::EGL_LEVEL, f.level);
    lemma_flatten_pairs_add(p13, opt_entry(egl::EGL_LUMINANCE_SIZE, f.luminance_size));
    lemma_flatten_opt_entry(egl::EGL_LUMINANCE_SIZE, f.luminance_size);
    let p14 = p13 + opt_entry(egl::EGL_LUMINANCE_SIZE, f.luminance_size);
    lemma_flatten_pairs_add(p14, opt_entry(egl::EGL_MATCH_NATIVE_PIXMAP, f.match_native_pixmap));
    lemma_flatten_opt_entry(egl::EGL_MATCH_NATIVE_PIXMAP, f.match_native_pixmap);
    let p15 = p14 + opt_entry(egl::EGL_MATCH_NATIVE_PIXMAP, f.match_native_pixmap);
    lemma_flatten_pairs_add(p15, opt_entry(egl::EGL_NATIVE_RENDERABLE, f.native_renderable));
    lemma_flatten_opt_entry(egl::EGL_NATIVE_RENDERABLE, f.native_renderable);
    let p16 = p15 + opt_entry(egl::EGL_NATIVE_RENDERABLE, f.native_renderable);
    lemma_flatten_pairs_add(p16, opt_entry(egl::EGL_MAX_SWAP_INTERVAL, f.max_swap_interval));
    lemma_flatten_opt_entry(egl::EGL_MAX_SWAP_INTERVAL, f.max_swap_interval);
    let p17 = p16 + opt_entry(egl::EGL_MAX_SWAP_INTERVAL, f.max_swap_interval);
    lemma_flatten_pairs_add(p17, opt_entry(egl::EGL_MIN_SWAP_INTERVAL, f.min_swap_interval));
    lemma_flatten_opt_entry(egl::EGL_MIN_SWAP_INTERVAL, f.min_swap_interval);
    let p18 = p17 + opt_entry(egl::EGL_MIN_SWAP_INTERVAL, f.min_swap_interval);
    lemma_flatten_pairs_add(p18, opt_entry(egl::EGL_RED_SIZE, f.red_size));
    lemma_flatten_opt_entry(egl::EGL_RED_SIZE, f.red_size);
    let p19 = p18 + opt_entry(egl::EGL_RED_SIZE, f.red_size);
    lemma_flatten_pairs_add(p19, opt_entry(egl::EGL_SAMPLE_BUFFERS, f.sample_buffers));
    lemma_flatten_opt_entry(egl::EGL_SAMPLE_BUFFERS, f.sample_buffers);
    let p20 = p19 + opt_entry(egl::EGL_SAMPLE_BUFFERS, f.sample_buffers);
    lemma_flatten_pairs_add(p20, opt_entry(egl::EGL_SAMPLES, f.samples));
    lemma_flatten_opt_entry(egl::EGL_SAMPLES, f.samples);
    let p21 = p20 + opt_entry(egl::EGL_SAMPLES, f.samples);
    lemma_flatten_pairs_add(p21, opt_entry(egl::EGL_STENCIL_SIZE, f.stencil_size));
    lemma_flatten_opt_entry(egl::EGL_STENCIL_SIZE, f.stencil_size);
    let p22 = p21 + opt_entry(egl::EGL_STENCIL_SIZE, f.stencil_size);
    lemma_flatten_pairs_add(p22, opt_entry(egl::EGL_RENDERABLE_TYPE, f.renderable_type));
    lemma_flatten_opt_entry(egl::EGL_RENDERABLE_TYPE, f.renderable_type);
    let p23 = p22 + opt_entry(egl::EGL_RENDERABLE_TYPE, f.renderable_type);
    lemma_flatten_pairs_add(p23, opt_entry(egl::EGL_SURFACE_TYPE, f.surface_type));
    lemma_flatten_opt_entry(egl::EGL_SURFACE_TYPE, f.surface_type);
    let p24 = p23 + opt_entry(egl::EGL_SURFACE_TYPE, f.surface_type);
    lemma_flatten_pairs_add(p24, opt_entry(egl::EGL_TRANSPARENT_TYPE, f.transparent_type));
    lemma_flatten_opt_entry(egl::EGL_TRANSPARENT_TYPE, f.transparent_type);
    let p25 = p24 + opt_entry(egl::EGL_TRANSPARENT_TYPE, f.transparent_type);
    lemma_flatten_pairs_add(p25, opt_entry(egl::EGL_TRANSPARENT_RED_VALUE, f.transparent_red_value));
    lemma_flatten_opt_entry(egl::EGL_TRANSPARENT_RED_VALUE, f.transparent_red_value);
    let p26 = p25 + opt_entry(egl::EGL_TRANSPARENT_RED_VALUE, f.transparent_red_value);
    lemma_flatten_pairs_add(p26, opt_entry(egl::EGL_TRANSPARENT_GREEN_VALUE, f.transparent_green_value));
    lemma_flatten_opt_entry(egl::EGL_TRANSPARENT_GREEN_VALUE, f.transparent_green_value);
    let p27 = p26 + opt_entry(egl::EGL_TRANSPARENT_GREEN_VALUE, f.transparent_green_value);
    lemma_flatten_pairs_add(p27, opt_entry(egl::EGL_TRANSPARENT_BLUE_VALUE, f.transparent_blue_value));
    lemma_flatten_opt_entry(egl::EGL_TRANSPARENT_BLUE_VALUE, f.transparent_blue_value);
    let p28 = p27 + opt_entry(egl::EGL_TRANSPARENT_BLUE_VALUE, f.transparent_blue_value);
    assert(f.spec_criteria() == p28);
    assert(flatten_pairs(f.spec_criteria()) =~= f.spec_attrib_prefix());
}

/// Law: a filter with no criterion set produces the attribute list that
/// holds the terminator alone.
pub proof fn lemma_empty_filter_attrib_list(handle: usize)
    ensures
        ConfigFilterRef::spec_empty(handle).spec_attrib_list() == seq![egl::EGL_NONE],
{
    assert(ConfigFilterRef::spec_empty(handle).spec_attrib_list() =~= seq![egl::EGL_NONE]);
}

} // verus!
