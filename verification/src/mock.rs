//! A configurable in-crate backend for exercising the library.
//!
//! The mock honors the native calling convention over plain values: it
//! keeps a table of configurations, answers the two-call enumeration and
//! selection patterns, matches attribute lists with the native selection
//! semantics (at-least for sizes, mask containment for bitmasks, exact
//! match elsewhere, don't-care skipped, unlisted criteria at their
//! documented defaults), and records how often each destructive call was
//! made.  Named operations can be forced to report failure, so every typed
//! failure tag of the library can be provoked.
//!
//! The mock serves whatever display handle it is given and reports one
//! display of its own; it does not model per-display state.

use vstd::prelude::*;

use crate::backend::Backend;
use crate::egl;
use crate::error::EglCallError;

verus! {

/// One configuration of the mock's table, with every queryable attribute
/// as a plain value.
#[derive(Copy, Clone, Debug, PartialEq, Eq, Structural)]
pub struct MockConfig {
    pub config_id: i32,
    pub buffer_size: i32,
    pub red_size: i32,
    pub green_size: i32,
    pub blue_size: i32,
    pub alpha_size: i32,
    pub alpha_mask_size: i32,
    pub depth_size: i32,
    pub stencil_size: i32,
    pub luminance_size: i32,
    pub level: i32,
    pub bind_to_texture_rgb: i32,
    pub bind_to_texture_rgba: i32,
    pub color_buffer_type: i32,
    pub config_caveat: i32,
    pub conformant: i32,
    pub max_pbuffer_width: i32,
    pub max_pbuffer_height: i32,
    pub max_pbuffer_pixels: i32,
    pub max_swap_interval: i32,
    pub min_swap_interval: i32,
    pub native_renderable: i32,
    pub native_visual_id: i32,
    pub native_visual_type: i32,
    pub renderable_type: i32,
    pub sample_buffers: i32,
    pub samples: i32,
    pub surface_type: i32,
    pub transparent_type: i32,
    pub transparent_red_value: i32,
    pub transparent_green_value: i32,
    pub transparent_blue_value: i32,
}

impl MockConfig {
    /// A plain window-capable RGB configuration with the given identifier
    /// and every size zero; tests adjust the fields they care about.
    pub fn new(config_id: i32) -> (r: MockConfig)
        ensures
            r == (MockConfig {
                config_id,
                buffer_size: 0,
                red_size: 0,
                green_size: 0,
                blue_size: 0,
                alpha_size: 0,
                alpha_mask_size: 0,
                depth_size: 0,
                stencil_size: 0,
                luminance_size: 0,
                level: 0,
                bind_to_texture_rgb: 0,
                bind_to_texture_rgba: 0,
                color_buffer_type: egl::EGL_RGB_BUFFER,
                config_caveat: egl::EGL_NONE,
                conformant: 0x0001,
                max_pbuffer_width: 0,
                max_pbuffer_height: 0,
                max_pbuffer_pixels: 0,
                max_swap_interval: 1,
                min_swap_interval: 1,
                native_renderable: 0,
                native_visual_id: 0,
                native_visual_type: 0,
                renderable_type: 0x0001,
                sample_buffers: 0,
                samples: 0,
                surface_type: 0x0004,
                transparent_type: egl::EGL_NONE,
                transparent_red_value: 0,
                transparent_green_value: 0,
                transparent_blue_value: 0,
            }),
    {
        MockConfig {
            config_id,
            buffer_size: 0,
            red_size: 0,
            green_size: 0,
            blue_size: 0,
            alpha_size: 0,
            alpha_mask_size: 0,
            depth_size: 0,
            stencil_size: 0,
            luminance_size: 0,
            level: 0,
            bind_to_texture_rgb: 0,
            bind_to_texture_rgba: 0,
            color_buffer_type: egl::EGL_RGB_BUFFER,
            config_caveat: egl::EGL_NONE,
            conformant: 0x0001,
            max_pbuffer_width: 0,
            max_pbuffer_height: 0,
            max_pbuffer_pixels: 0,
            max_swap_interval: 1,
            min_swap_interval: 1,
            native_renderable: 0,
            native_visual_id: 0,
            native_visual_type: 0,
            renderable_type: 0x0001,
            sample_buffers: 0,
            samples: 0,
            surface_type: 0x0004,
            transparent_type: egl::EGL_NONE,
            transparent_red_value: 0,
            transparent_green_value: 0,
            transparent_blue_value: 0,
        }
    }

    /// The value this configuration reports for a queryable attribute
    /// code, or `None` for a code outside the specified set.
    pub open spec fn spec_attrib(self, code: i32) -> Option<i32> {
        if code == egl::EGL_CONFIG_ID {
            Option::Some(self.config_id)
        } else if code == egl::EGL_BUFFER_SIZE {
            Option::Some(self.buffer_size)
        } else if code == egl::EGL_RED_SIZE {
            Option::Some(self.red_size)
        } else if code == egl::EGL_GREEN_SIZE {
            Option::Some(self.green_size)
        } else if code == egl::EGL_BLUE_SIZE {
            Option::Some(self.blue_size)
        } else if code == egl::EGL_ALPHA_SIZE {
            Option::Some(self.alpha_size)
        } else if code == egl::EGL_ALPHA_MASK_SIZE {
            Option::Some(self.alpha_mask_size)
        } else if code == egl::EGL_DEPTH_SIZE {
            Option::Some(self.depth_size)
        } else if code == egl::EGL_STENCIL_SIZE {
            Option::Some(self.stencil_size)
        } else if code == egl::EGL_LUMINANCE_SIZE {
            Option::Some(self.luminance_size)
        } else if code == egl::EGL_LEVEL {
            Option::Some(self.level)
        } else if code == egl::EGL_BIND_TO_TEXTURE_RGB {
            Option::Some(self.bind_to_texture_rgb)
        } else if code == egl::EGL_BIND_TO_TEXTURE_RGBA {
            Option::Some(self.bind_to_texture_rgba)
        } else if code == egl::EGL_COLOR_BUFFER_TYPE {
            Option::Some(self.color_buffer_type)
        } else if code == egl::EGL_CONFIG_CAVEAT {
            Option::Some(self.config_caveat)
        } else if code == egl::EGL_CONFORMANT {
            Option::Some(self.conformant)
        } else if code == egl::EGL_MAX_PBUFFER_WIDTH {
            Option::Some(self.max_pbuffer_width)
        } else if code == egl::EGL_MAX_PBUFFER_HEIGHT {
            Option::Some(self.max_pbuffer_height)
        } else if code == egl::EGL_MAX_PBUFFER_PIXELS {
            Option::Some(self.max_pbuffer_pixels)
        } else if code == egl::EGL_MAX_SWAP_INTERVAL {
            Option::Some(self.max_swap_interval)
        } else if code == egl::EGL_MIN_SWAP_INTERVAL {
            Option::Some(self.min_swap_interval)
        } else if code == egl::EGL_NATIVE_RENDERABLE {
            Option::Some(self.native_renderable)
        } else if code == egl::EGL_NATIVE_VISUAL_ID {
            Option::Some(self.native_visual_id)
        } else if code == egl::EGL_NATIVE_VISUAL_TYPE {
            Option::Some(self.native_visual_type)
        } else if code == egl::EGL_RENDERABLE_TYPE {
            Option::Some(self.renderable_type)
        } else if code == egl::EGL_SAMPLE_BUFFERS {
            Option::Some(self.sample_buffers)
        } else if code == egl::EGL_SAMPLES {
            Option::Some(self.samples)
        } else if code == egl::EGL_SURFACE_TYPE {
            Option::Some(self.surface_type)
        } else if code == egl::EGL_TRANSPARENT_TYPE {
            Option::Some(self.transparent_type)
        } else if code == egl::EGL_TRANSPARENT_RED_VALUE {
            Option::Some(self.transparent_red_value)
        } else if code == egl::EGL_TRANSPARENT_GREEN_VALUE {
            Option::Some(self.transparent_green_value)
        } else if code == egl::EGL_TRANSPARENT_BLUE_VALUE {
            Option::Some(self.transparent_blue_value)
        } else {
            Option::None
        }
    }

    /// Reports one queryable attribute of this configuration.
    pub fn attrib(&self, code: i32) -> (r: Option<i32>)
        ensures
            r == self.spec_attrib(code),
    {
        if code == egl::EGL_CONFIG_ID {
            Some(self.config_id)
        } else if code == egl::EGL_BUFFER_SIZE {
            Some(self.buffer_size)
        } else if code == egl::EGL_RED_SIZE {
            Some(self.red_size)
        } else if code == egl::EGL_GREEN_SIZE {
            Some(self.green_size)
        } else if code == egl::EGL_BLUE_SIZE {
            Some(self.blue_size)
        } else if code == egl::EGL_ALPHA_SIZE {
            Some(self.alpha_size)
        } else if code == egl::EGL_ALPHA_MASK_SIZE {
            Some(self.alpha_mask_size)
        } else if code == egl::EGL_DEPTH_SIZE {
            Some(self.depth_size)
        } else if code == egl::EGL_STENCIL_SIZE {
            Some(self.stencil_size)
        } else if code == egl::EGL_LUMINANCE_SIZE {
            Some(self.luminance_size)
        } else if code == egl::EGL_LEVEL {
            Some(self.level)
        } else if code == egl::EGL_BIND_TO_TEXTURE_RGB {
            Some(self.bind_to_texture_rgb)
        } else if code == egl::EGL_BIND_TO_TEXTURE_RGBA {
            Some(self.bind_to_texture_rgba)
        } else if code == egl::EGL_COLOR_BUFFER_TYPE {
            Some(self.color_buffer_type)
        } else if code == egl::EGL_CONFIG_CAVEAT {
            Some(self.config_caveat)
        } else if code == egl::EGL_CONFORMANT {
            Some(self.conformant)
        } else if code == egl::EGL_MAX_PBUFFER_WIDTH {
            Some(self.max_pbuffer_width)
        } else if code == egl::EGL_MAX_PBUFFER_HEIGHT {
            Some(self.max_pbuffer_height)
        } else if code == egl::EGL_MAX_PBUFFER_PIXELS {
            Some(self.max_pbuffer_pixels)
        } else if code == egl::EGL_MAX_SWAP_INTERVAL {
            Some(self.max_swap_interval)
        } else if code == egl::EGL_MIN_SWAP_INTERVAL {
            Some(self.min_swap_interval)
        } else if code == egl::EGL_NATIVE_RENDERABLE {
            Some(self.native_renderable)
        } else if code == egl::EGL_NATIVE_VISUAL_ID {
            Some(self.native_visual_id)
        } else if code == egl::EGL_NATIVE_VISUAL_TYPE {
            Some(self.native_visual_type)
        } else if code == egl::EGL_RENDERABLE_TYPE {
            Some(self.renderable_type)
        } else if code == egl::EGL_SAMPLE_BUFFERS {
            Some(self.sample_buffers)
        } else if code == egl::EGL_SAMPLES {
            Some(self.samples)
        } else if code == egl::EGL_SURFACE_TYPE {
            Some(self.surface_type)
        } else if code == egl::EGL_TRANSPARENT_TYPE {
            Some(self.transparent_type)
        } else if code == egl::EGL_TRANSPARENT_RED_VALUE {
            Some(self.transparent_red_value)
        } else if code == egl::EGL_TRANSPARENT_GREEN_VALUE {
            Some(self.transparent_green_value)
        } else if code == egl::EGL_TRANSPARENT_BLUE_VALUE {
            Some(self.transparent_blue_value)
        } else {
            None
        }
    }
}

/// At-least matching: the criterion is met when it is don't-care or the
/// configuration offers at least the wanted amount.
pub open spec fn spec_at_least(have: i32, want: i32) -> bool {
    want == egl::EGL_DONT_CARE || have >= want
}

/// Exact matching: the criterion is met when it is don't-care or the
/// values agree.
pub open spec fn spec_exact(have: i32, want: i32) -> bool {
    want == egl::EGL_DONT_CARE || have == want
}

/// Mask matching: the criterion is met when it is don't-care or every
/// wanted bit is offered.
pub open spec fn spec_mask(have: i32, want: i32) -> bool {
    want == egl::EGL_DONT_CARE || have & want == want
}

/// The value an attribute list requests for a code: the last pair with
/// that code, or the code's documented default when no pair names it.
pub open spec fn spec_requested(pairs: Seq<(i32, i32)>, code: i32, dflt: i32) -> i32
    decreases pairs.len(),
{
    if pairs.len() == 0 {
        dflt
    } else if pairs[pairs.len() - 1].0 == code {
        pairs[pairs.len() - 1].1
    } else {
        spec_requested(pairs.drop_last(), code, dflt)
    }
}

/// The requested value among the first `n` pairs.
fn requested_upto(pairs: &Vec<(i32, i32)>, n: usize, code: i32, dflt: i32) -> (r: i32)
    requires
        n <= pairs@.len(),
    ensures
        r == spec_requested(pairs@.take(n as int), code, dflt),
    decreases n,
{
    if n == 0 {
        assert(pairs@.take(0) =~= Seq::<(i32, i32)>::empty());
        dflt
    } else {
        let (c, v) = pairs[n - 1];
        proof {
            assert(pairs@.take(n as int)[n - 1] == pairs@[n - 1]);
            assert(pairs@.take(n as int).drop_last() =~= pairs@.take(n - 1));
        }
        if c == code {
            v
        } else {
            requested_upto(pairs, n - 1, code, dflt)
        }
    }
}

/// The value an attribute list requests for a code, by the native rule:
/// the last listed pair wins, an unlisted code keeps its default.
fn requested(pairs: &Vec<(i32, i32)>, code: i32, dflt: i32) -> (r: i32)
    ensures
        r == spec_requested(pairs@, code, dflt),
{
    let n = pairs.len();
    let r = requested_upto(pairs, n, code, dflt);
    proof {
        assert(pairs@.take(n as int) =~= pairs@);
    }
    r
}

/// Whether an attribute code is one the selection call accepts.
pub open spec fn spec_known_code(code: i32) -> bool {
    ||| code == egl::EGL_ALPHA_MASK_SIZE
    ||| code == egl::EGL_ALPHA_SIZE
    ||| code == egl::EGL_BIND_TO_TEXTURE_RGB
    ||| code == egl::EGL_BIND_TO_TEXTURE_RGBA
    ||| code == egl::EGL_BLUE_SIZE
    ||| code == egl::EGL_BUFFER_SIZE
    ||| code == egl::EGL_COLOR_BUFFER_TYPE
    ||| code == egl::EGL_CONFIG_CAVEAT
    ||| code == egl::EGL_CONFIG_ID
    ||| code == egl::EGL_CONFORMANT
    ||| code == egl::EGL_DEPTH_SIZE
    ||| code == egl::EGL_GREEN_SIZE
    ||| code == egl::EGL_LEVEL
    ||| code == egl::EGL_LUMINANCE_SIZE
    ||| code == egl::EGL_MATCH_NATIVE_PIXMAP
    ||| code == egl::EGL_NATIVE_RENDERABLE
    ||| code == egl::EGL_MAX_SWAP_INTERVAL
    ||| code == egl::EGL_MIN_SWAP_INTERVAL
    ||| code == egl::EGL_RED_SIZE
    ||| code == egl::EGL_SAMPLE_BUFFERS
    ||| code == egl::EGL_SAMPLES
    ||| code == egl::EGL_STENCIL_SIZE
    ||| code == egl::EGL_RENDERABLE_TYPE
    ||| code == egl::EGL_SURFACE_TYPE
    ||| code == egl::EGL_TRANSPARENT_TYPE
    ||| code == egl::EGL_TRANSPARENT_RED_VALUE
    ||| code == egl::EGL_TRANSPARENT_GREEN_VALUE
    ||| code == egl::EGL_TRANSPARENT_BLUE_VALUE
}

/// Whether an attribute code is one the selection call accepts.
fn known_code(code: i32) -> (r: bool)
    ensures
        r == spec_known_code(code),
{
    code == egl::EGL_ALPHA_MASK_SIZE || code == egl::EGL_ALPHA_SIZE || code
        == egl::EGL_BIND_TO_TEXTURE_RGB || code == egl::EGL_BIND_TO_TEXTURE_RGBA || code
        == egl::EGL_BLUE_SIZE || code == egl::EGL_BUFFER_SIZE || code == egl::EGL_COLOR_BUFFER_TYPE
        || code == egl::EGL_CONFIG_CAVEAT || code == egl::EGL_CONFIG_ID || code
        == egl::EGL_CONFORMANT || code == egl::EGL_DEPTH_SIZE || code == egl::EGL_GREEN_SIZE
        || code == egl::EGL_LEVEL || code == egl::EGL_LUMINANCE_SIZE || code
        == egl::EGL_MATCH_NATIVE_PIXMAP || code == egl::EGL_NATIVE_RENDERABLE || code
        == egl::EGL_MAX_SWAP_INTERVAL || code == egl::EGL_MIN_SWAP_INTERVAL || code
        == egl::EGL_RED_SIZE || code == egl::EGL_SAMPLE_BUFFERS || code == egl::EGL_SAMPLES || code
        == egl::EGL_STENCIL_SIZE || code == egl::EGL_RENDERABLE_TYPE || code
        == egl::EGL_SURFACE_TYPE || code == egl::EGL_TRANSPARENT_TYPE || code
        == egl::EGL_TRANSPARENT_RED_VALUE || code == egl::EGL_TRANSPARENT_GREEN_VALUE || code
        == egl::EGL_TRANSPARENT_BLUE_VALUE
}

/// Whether every pair of the list names an accepted attribute code.
pub open spec fn spec_all_codes_known(pairs: Seq<(i32, i32)>) -> bool {
    forall|i: int| 0 <= i < pairs.len() ==> spec_known_code(#[trigger] pairs[i].0)
}

/// Checks every pair of the list for an accepted attribute code.
fn all_codes_known(pairs: &Vec<(i32, i32)>) -> (r: bool)
    ensures
        r == spec_all_codes_known(pairs@),
{
    let mut idx: usize = 0;
    while idx < pairs.len()
        invariant
            idx <= pairs@.len(),
            forall|i: int| 0 <= i < idx ==> spec_known_code(#[trigger] pairs@[i].0),
        decreases pairs@.len() - idx,
    {
        let (c, _v) = pairs[idx];
        if !known_code(c) {
            return false;
        }
        idx = idx + 1;
    }
    true
}

/// The pairs of a terminated attribute list: `None` when the list ends
/// without a terminator or a code stands without a value.  Entries past
/// the terminator are never read.
pub open spec fn spec_parse_pairs(list: Seq<i32>) -> Option<Seq<(i32, i32)>>
    decreases list.len(),
{
    if list.len() == 0 {
        Option::None
    } else if list[0] == egl::EGL_NONE {
        Option::Some(Seq::empty())
    } else if list.len() < 2 {
        Option::None
    } else {
        match spec_parse_pairs(list.skip(2)) {
            Option::Some(rest) => Option::Some(seq![(list[0], list[1])] + rest),
            Option::None => Option::None,
        }
    }
}

/// Parses the tail of an attribute list beginning at `from`.
fn parse_pairs_from(list: &Vec<i32>, from: usize) -> (r: Option<Vec<(i32, i32)>>)
    requires
        from <= list@.len(),
    ensures
        r is Some <==> spec_parse_pairs(list@.skip(from as int)) is Some,
        r matches Some(v) ==> spec_parse_pairs(list@.skip(from as int)) == Some(v@),
    decreases list@.len() - from,
{
    proof {
        assert(list@.skip(from as int).len() == list@.len() - from);
    }
    if from == list.len() {
        None
    } else {
        proof {
            assert(list@.skip(from as int)[0] == list@[from as int]);
        }
        if list[from] == egl::EGL_NONE {
            Some(Vec::new())
        } else if from + 1 == list.len() {
            None
        } else {
            proof {
                assert(list@.skip(from as int)[1] == list@[from + 1]);
                assert(list@.skip(from as int).skip(2) =~= list@.skip(from + 2));
            }
            match parse_pairs_from(list, from + 2) {
                Some(mut rest) => {
                    let pair = (list[from], list[from + 1]);
                    rest.insert(0, pair);
                    proof {
                        assert(rest@ =~= seq![pair] + rest@.skip(1));
                    }
                    Some(rest)
                },
                None => None,
            }
        }
    }
}

/// Parses a terminated attribute list into its pairs.
pub fn parse_pairs(list: &Vec<i32>) -> (r: Option<Vec<(i32, i32)>>)
    ensures
        r is Some <==> spec_parse_pairs(list@) is Some,
        r matches Some(v) ==> spec_parse_pairs(list@) == Some(v@),
{
    let r = parse_pairs_from(list, 0);
    proof {
        assert(list@.skip(0) =~= list@);
    }
    r
}

/// Whether a configuration satisfies every criterion of a pair list, by
/// the native selection semantics: sizes and sample counts at least the
/// requested amount, the three bitmasks by containment, everything else
/// exactly; a don't-care criterion is skipped, an unlisted one keeps its
/// documented default; the native-pixmap match is not modeled and never
/// excludes a configuration.  A concrete configuration identifier
/// overrides everything else, as the native rule says: the entry with
/// that identifier matches and every other criterion is ignored.
pub open spec fn spec_matches(cfg: MockConfig, pairs: Seq<(i32, i32)>) -> bool {
    let wanted_id = spec_requested(pairs, egl::EGL_CONFIG_ID, egl::EGL_DONT_CARE);
    if wanted_id != egl::EGL_DONT_CARE {
        cfg.config_id == wanted_id
    } else {
        spec_matches_criteria(cfg, pairs)
    }
}

/// Whether a configuration satisfies every criterion of a pair list other
/// than the identifier override.
pub open spec fn spec_matches_criteria(cfg: MockConfig, pairs: Seq<(i32, i32)>) -> bool {
    &&& spec_at_least(cfg.buffer_size, spec_requested(pairs, egl::EGL_BUFFER_SIZE, 0))
    &&& spec_at_least(cfg.red_size, spec_requested(pairs, egl::EGL_RED_SIZE, 0))
    &&& spec_at_least(cfg.green_size, spec_requested(pairs, egl::EGL_GREEN_SIZE, 0))
    &&& spec_at_least(cfg.blue_size, spec_requested(pairs, egl::EGL_BLUE_SIZE, 0))
    &&& spec_at_least(cfg.alpha_size, spec_requested(pairs, egl::EGL_ALPHA_SIZE, 0))
    &&& spec_at_least(cfg.alpha_mask_size, spec_requested(pairs, egl::EGL_ALPHA_MASK_SIZE, 0))
    &&& spec_at_least(cfg.depth_size, spec_requested(pairs, egl::EGL_DEPTH_SIZE, 0))
    &&& spec_at_least(cfg.stencil_size, spec_requested(pairs, egl::EGL_STENCIL_SIZE, 0))
    &&& spec_at_least(cfg.luminance_size, spec_requested(pairs, egl::EGL_LUMINANCE_SIZE, 0))
    &&& spec_at_least(cfg.sample_buffers, spec_requested(pairs, egl::EGL_SAMPLE_BUFFERS, 0))
    &&& spec_at_least(cfg.samples, spec_requested(pairs, egl::EGL_SAMPLES, 0))
    &&& spec_exact(cfg.level, spec_requested(pairs, egl::EGL_LEVEL, 0))
    &&& spec_exact(
        cfg.color_buffer_type,
        spec_requested(pairs, egl::EGL_COLOR_BUFFER_TYPE, egl::EGL_RGB_BUFFER),
    )
    &&& spec_exact(
        cfg.config_caveat,
        spec_requested(pairs, egl::EGL_CONFIG_CAVEAT, egl::EGL_DONT_CARE),
    )
    &&& spec_exact(
        cfg.native_renderable,
        spec_requested(pairs, egl::EGL_NATIVE_RENDERABLE, egl::EGL_DONT_CARE),
    )
    &&& spec_exact(
        cfg.max_swap_interval,
        spec_requested(pairs, egl::EGL_MAX_SWAP_INTERVAL, egl::EGL_DONT_CARE),
    )
    &&& spec_exact(
        cfg.min_swap_interval,
        spec_requested(pairs, egl::EGL_MIN_SWAP_INTERVAL, egl::EGL_DONT_CARE),
    )
    &&& spec_exact(
        cfg.bind_to_texture_rgb,
        spec_requested(pairs, egl::EGL_BIND_TO_TEXTURE_RGB, egl::EGL_DONT_CARE),
    )
    &&& spec_exact(
        cfg.bind_to_texture_rgba,
        spec_requested(pairs, egl::EGL_BIND_TO_TEXTURE_RGBA, egl::EGL_DONT_CARE),
    )
    &&& spec_exact(
        cfg.transparent_type,
        spec_requested(pairs, egl::EGL_TRANSPARENT_TYPE, egl::EGL_NONE),
    )
    &&& spec_exact(
        cfg.transparent_red_value,
        spec_requested(pairs, egl::EGL_TRANSPARENT_RED_VALUE, egl::EGL_DONT_CARE),
    )
    &&& spec_exact(
        cfg.transparent_green_value,
        spec_requested(pairs, egl::EGL_TRANSPARENT_GREEN_VALUE, egl::EGL_DONT_CARE),
    )
    &&& spec_exact(
        cfg.transparent_blue_value,
        spec_requested(pairs, egl::EGL_TRANSPARENT_BLUE_VALUE, egl::EGL_DONT_CARE),
    )
    &&& spec_mask(cfg.conformant, spec_requested(pairs, egl::EGL_CONFORMANT, 0))
    &&& spec_mask(cfg.renderable_type, spec_requested(pairs, egl::EGL_RENDERABLE_TYPE, 0x0001))
    &&& spec_mask(cfg.surface_type, spec_requested(pairs, egl::EGL_SURFACE_TYPE, 0x0004))
}

/// Whether a configuration satisfies every criterion of a pair list.
pub fn config_matches(cfg: &MockConfig, pairs: &Vec<(i32, i32)>) -> (r: bool)
    ensures
        r == spec_matches(*cfg, pairs@),
{
    let wanted_id = requested(pairs, egl::EGL_CONFIG_ID, egl::EGL_DONT_CARE);
    if wanted_id != egl::EGL_DONT_CARE {
        return cfg.config_id == wanted_id;
    }
    let mut ok: bool = true;
    ok = ok && at_least(cfg.buffer_size, requested(pairs, egl::EGL_BUFFER_SIZE, 0));
    ok = ok && at_least(cfg.red_size, requested(pairs, egl::EGL_RED_SIZE, 0));
    ok = ok && at_least(cfg.green_size, requested(pairs, egl::EGL_GREEN_SIZE, 0));
    ok = ok && at_least(cfg.blue_size, requested(pairs, egl::EGL_BLUE_SIZE, 0));
    ok = ok && at_least(cfg.alpha_size, requested(pairs, egl::EGL_ALPHA_SIZE, 0));
    ok = ok && at_least(cfg.alpha_mask_size, requested(pairs, egl::EGL_ALPHA_MASK_SIZE, 0));
    ok = ok && at_least(cfg.depth_size, requested(pairs, egl::EGL_DEPTH_SIZE, 0));
    ok = ok && at_least(cfg.stencil_size, requested(pairs, egl::EGL_STENCIL_SIZE, 0));
    ok = ok && at_least(cfg.luminance_size, requested(pairs, egl::EGL_LUMINANCE_SIZE, 0));
    ok = ok && at_least(cfg.sample_buffers, requested(pairs, egl::EGL_SAMPLE_BUFFERS, 0));
    ok = ok && at_least(cfg.samples, requested(pairs, egl::EGL_SAMPLES, 0));
    ok = ok && exact(cfg.level, requested(pairs, egl::EGL_LEVEL, 0));
    ok = ok && exact(
        cfg.color_buffer_type,
        requested(pairs, egl::EGL_COLOR_BUFFER_TYPE, egl::EGL_RGB_BUFFER),
    );
    ok = ok && exact(cfg.config_caveat, requested(pairs, egl::EGL_CONFIG_CAVEAT, egl::EGL_DONT_CARE));
    ok = ok && exact(
        cfg.native_renderable,
        requested(pairs, egl::EGL_NATIVE_RENDERABLE, egl::EGL_DONT_CARE),
    );
    ok = ok && exact(
        cfg.max_swap_interval,
        requested(pairs, egl::EGL_MAX_SWAP_INTERVAL, egl::EGL_DONT_CARE),
    );
    ok = ok && exact(
        cfg.min_swap_interval,
        requested(pairs, egl::EGL_MIN_SWAP_INTERVAL, egl::EGL_DONT_CARE),
    );
    ok = ok && exact(
        cfg.bind_to_texture_rgb,
        requested(pairs, egl::EGL_BIND_TO_TEXTURE_RGB, egl::EGL_DONT_CARE),
    );
    ok = ok && exact(
        cfg.bind_to_texture_rgba,
        requested(pairs, egl::EGL_BIND_TO_TEXTURE_RGBA, egl::EGL_DONT_CARE),
    );
    ok = ok && exact(cfg.transparent_type, requested(pairs, egl::EGL_TRANSPARENT_TYPE, egl::EGL_NONE));
    ok = ok && exact(
        cfg.transparent_red_value,
        requested(pairs, egl::EGL_TRANSPARENT_RED_VALUE, egl::EGL_DONT_CARE),
    );
    ok = ok && exact(
        cfg.transparent_green_value,
        requested(pairs, egl::EGL_TRANSPARENT_GREEN_VALUE, egl::EGL_DONT_CARE),
    );
    ok = ok && exact(
        cfg.transparent_blue_value,
        requested(pairs, egl::EGL_TRANSPARENT_BLUE_VALUE, egl::EGL_DONT_CARE),
    );
    ok = ok && mask(cfg.conformant, requested(pairs, egl::EGL_CONFORMANT, 0));
    ok = ok && mask(cfg.renderable_type, requested(pairs, egl::EGL_RENDERABLE_TYPE, 0x0001));
    ok = ok && mask(cfg.surface_type, requested(pairs, egl::EGL_SURFACE_TYPE, 0x0004));
    ok
}

fn at_least(have: i32, want: i32) -> (r: bool)
    ensures
        r == spec_at_least(have, want),
{
    want == egl::EGL_DONT_CARE || have >= want
}

fn exact(have: i32, want: i32) -> (r: bool)
    ensures
        r == spec_exact(have, want),
{
    want == egl::EGL_DONT_CARE || have == want
}

fn mask(have: i32, want: i32) -> (r: bool)
    ensures
        r == spec_mask(have, want),
{
    want == egl::EGL_DONT_CARE || have & want == want
}

/// The handles of the table entries matching a pair list, in table order;
/// the entry at index `i` carries handle `i + 1`.
pub open spec fn spec_matching_handles(table: Seq<MockConfig>, pairs: Seq<(i32, i32)>) -> Seq<usize>
    decreases table.len(),
{
    if table.len() == 0 {
        Seq::empty()
    } else {
        spec_matching_handles(table.drop_last(), pairs) + (if spec_matches(
            table[table.len() - 1],
            pairs,
        ) {
            seq![table.len() as usize]
        } else {
            Seq::empty()
        })
    }
}

/// The matching handles among the first `n` table entries.
fn matching_handles_upto(table: &Vec<MockConfig>, pairs: &Vec<(i32, i32)>, n: usize) -> (r: Vec<
    usize,
>)
    requires
        n <= table@.len(),
    ensures
        r@ == spec_matching_handles(table@.take(n as int), pairs@),
    decreases n,
{
    if n == 0 {
        let r: Vec<usize> = Vec::new();
        proof {
            assert(table@.take(0) =~= Seq::<MockConfig>::empty());
        }
        r
    } else {
        let mut rest = matching_handles_upto(table, pairs, n - 1);
        let cfg = table[n - 1];
        proof {
            assert(table@.take(n as int)[n - 1] == table@[n - 1]);
            assert(table@.take(n as int).drop_last() =~= table@.take(n - 1));
        }
        if config_matches(&cfg, pairs) {
            rest.push(n);
            proof {
                assert(rest@ =~= spec_matching_handles(table@.take(n as int), pairs@));
            }
        } else {
            proof {
                assert(rest@ =~= spec_matching_handles(table@.take(n as int), pairs@));
            }
        }
        rest
    }
}

/// The handles of every table entry matching a pair list, in table order.
pub fn matching_handles(table: &Vec<MockConfig>, pairs: &Vec<(i32, i32)>) -> (r: Vec<usize>)
    ensures
        r@ == spec_matching_handles(table@, pairs@),
{
    let n = table.len();
    let r = matching_handles_upto(table, pairs, n);
    proof {
        assert(table@.take(n as int) =~= table@);
    }
    r
}

/// Every matching handle denotes a table entry: it lies between one and
/// the table's length.  Together with the attribute query being a function
/// of the table entry alone, a reference from filtered selection answers
/// every attribute query exactly as the same entry reached through plain
/// enumeration does.
pub proof fn lemma_matching_handles_in_range(table: Seq<MockConfig>, pairs: Seq<(i32, i32)>)
    requires
        table.len() <= usize::MAX,
    ensures
        forall|j: int|
            0 <= j < spec_matching_handles(table, pairs).len() ==> 1 <= #[trigger] spec_matching_handles(
                table,
                pairs,
            )[j] <= table.len(),
    decreases table.len(),
{
    if table.len() > 0 {
        lemma_matching_handles_in_range(table.drop_last(), pairs);
        let shorter = spec_matching_handles(table.drop_last(), pairs);
        let whole = spec_matching_handles(table, pairs);
        assert forall|j: int| 0 <= j < whole.len() implies 1 <= #[trigger] whole[j] <= table.len() by {
            if j < shorter.len() {
                assert(whole[j] == shorter[j]);
            } else {
                assert(whole[j] == table.len() as usize);
            }
        }
    }
}

/// Every reported handle names a matching entry: the configuration it
/// denotes satisfies the attribute list.
pub proof fn lemma_matching_handles_sound(table: Seq<MockConfig>, pairs: Seq<(i32, i32)>)
    requires
        table.len() <= usize::MAX,
    ensures
        forall|j: int|
            0 <= j < spec_matching_handles(table, pairs).len() ==> spec_matches(
                table[#[trigger] spec_matching_handles(table, pairs)[j] - 1],
                pairs,
            ),
    decreases table.len(),
{
    if table.len() > 0 {
        lemma_matching_handles_sound(table.drop_last(), pairs);
        lemma_matching_handles_in_range(table.drop_last(), pairs);
        let shorter = spec_matching_handles(table.drop_last(), pairs);
        let whole = spec_matching_handles(table, pairs);
        assert forall|j: int|
            0 <= j < whole.len() implies spec_matches(
            table[#[trigger] whole[j] - 1],
            pairs,
        ) by {
            if j < shorter.len() {
                assert(whole[j] == shorter[j]);
                assert(table.drop_last()[shorter[j] - 1] == table[shorter[j] - 1]);
            } else {
                assert(whole[j] == table.len() as usize);
            }
        }
    }
}

/// The reported handles come in table order: they increase strictly from
/// the front of the table to its back.
pub proof fn lemma_matching_handles_ordered(table: Seq<MockConfig>, pairs: Seq<(i32, i32)>)
    requires
        table.len() <= usize::MAX,
    ensures
        forall|j1: int, j2: int|
            0 <= j1 < j2 < spec_matching_handles(table, pairs).len()
                ==> #[trigger] spec_matching_handles(table, pairs)[j1]
                < #[trigger] spec_matching_handles(table, pairs)[j2],
    decreases table.len(),
{
    if table.len() > 0 {
        lemma_matching_handles_ordered(table.drop_last(), pairs);
        lemma_matching_handles_in_range(table.drop_last(), pairs);
        let shorter = spec_matching_handles(table.drop_last(), pairs);
        let whole = spec_matching_handles(table, pairs);
        assert forall|j1: int, j2: int|
            0 <= j1 < j2 < whole.len() implies #[trigger] whole[j1] < #[trigger] whole[j2] by {
            if j2 < shorter.len() {
                assert(whole[j1] == shorter[j1] && whole[j2] == shorter[j2]);
            } else {
                assert(whole[j1] == shorter[j1]);
                assert(whole[j2] == table.len() as usize);
            }
        }
    }
}

/// Every matching entry is reported: the handle of each configuration
/// satisfying the attribute list occurs among the reported handles.
pub proof fn lemma_matching_handles_complete(table: Seq<MockConfig>, pairs: Seq<(i32, i32)>)
    requires
        table.len() <= usize::MAX,
    ensures
        forall|i: int|
            0 <= i < table.len() && spec_matches(#[trigger] table[i], pairs)
                ==> spec_matching_handles(table, pairs).contains((i + 1) as usize),
    decreases table.len(),
{
    if table.len() > 0 {
        lemma_matching_handles_complete(table.drop_last(), pairs);
        let shorter = spec_matching_handles(table.drop_last(), pairs);
        let whole = spec_matching_handles(table, pairs);
        assert forall|i: int|
            0 <= i < table.len() && spec_matches(#[trigger] table[i], pairs) implies whole.contains(
            (i + 1) as usize,
        ) by {
            if i < table.len() - 1 {
                assert(table.drop_last()[i] == table[i]);
                assert(shorter.contains((i + 1) as usize));
                let k = choose|k: int| 0 <= k < shorter.len() && shorter[k] == (i + 1) as usize;
                assert(whole[k] == shorter[k]);
            } else {
                assert(whole[whole.len() - 1] == table.len() as usize);
            }
        }
    }
}

/// How many entries a fill call writes: no more than are available, no
/// more than the buffer holds, and no more than the configured cap.
pub open spec fn spec_written(avail: nat, capacity: nat, limit: Option<usize>) -> nat {
    let upper = if avail < capacity {
        avail
    } else {
        capacity
    };
    match limit {
        Option::Some(l) => if (l as nat) < upper {
            l as nat
        } else {
            upper
        },
        Option::None => upper,
    }
}

/// Fills a buffer of exactly `capacity` entries with the leading handles,
/// zero-padding the rest, and reports how many entries were written.
fn fill_buffer(handles: &Vec<usize>, capacity: usize, limit: Option<usize>) -> (r: (
    Vec<usize>,
    usize,
))
    ensures
        r.0@.len() == capacity,
        r.1 == spec_written(handles@.len(), capacity as nat, limit),
        forall|i: int| 0 <= i < r.1 ==> r.0@[i] == handles@[i],
        forall|i: int| r.1 <= i < capacity ==> r.0@[i] == 0,
{
    let avail = handles.len();
    let mut written: usize = if avail < capacity {
        avail
    } else {
        capacity
    };
    match limit {
        Some(l) => {
            if l < written {
                written = l;
            }
        },
        None => {},
    }
    let mut out: Vec<usize> = Vec::new();
    let mut idx: usize = 0;
    while idx < written
        invariant
            idx <= written,
            written <= handles@.len(),
            out@.len() == idx,
            forall|i: int| 0 <= i < idx ==> out@[i] == handles@[i],
        decreases written - idx,
    {
        out.push(handles[idx]);
        idx = idx + 1;
    }
    while idx < capacity
        invariant
            written <= idx <= capacity,
            written <= handles@.len(),
            out@.len() == idx,
            forall|i: int| 0 <= i < written ==> out@[i] == handles@[i],
            forall|i: int| written <= i < idx ==> out@[i] == 0,
        decreases capacity - idx,
    {
        out.push(0);
        idx = idx + 1;
    }
    (out, written)
}

/// Copies a byte vector.
fn copy_bytes(bytes: &Vec<u8>) -> (r: Vec<u8>)
    ensures
        r@ == bytes@,
{
    let mut out: Vec<u8> = Vec::new();
    let mut idx: usize = 0;
    while idx < bytes.len()
        invariant
            idx <= bytes@.len(),
            out@ == bytes@.take(idx as int),
        decreases bytes@.len() - idx,
    {
        out.push(bytes[idx]);
        proof {
            assert(out@ =~= bytes@.take(idx + 1));
        }
        idx = idx + 1;
    }
    proof {
        assert(bytes@.take(bytes@.len() as int) =~= bytes@);
    }
    out
}

/// The configurable mock backend.
///
/// Tests set the fields directly: the table of configurations, the
/// reported version, the strings, the operations forced to fail, and an
/// optional cap on how many entries a fill call writes.  The call counters
/// record every attempt at a destructive operation, whether or not it was
/// made to fail.
pub struct MockBackend {
    /// Handle handed out for any display identifier; zero makes display
    /// resolution report absence.
    pub display_handle: usize,
    /// Major version reported by initialization.
    pub version_major: i32,
    /// Minor version reported by initialization.
    pub version_minor: i32,
    /// The configuration table; the entry at index `i` carries handle
    /// `i + 1`.
    pub configs: Vec<MockConfig>,
    /// Bytes reported for the vendor string query.
    pub vendor: Vec<u8>,
    /// Bytes reported for the version string query.
    pub version_string: Vec<u8>,
    /// Bytes reported for the extension string query.
    pub extensions: Vec<u8>,
    /// Bytes reported for the client API string query.
    pub client_apis: Vec<u8>,
    /// Operations forced to report native failure.
    pub fail: Vec<EglCallError>,
    /// Cap on the entries a fill call writes, to exercise a second
    /// enumeration call reporting fewer entries than the first announced.
    pub fill_limit: Option<usize>,
    /// Source of fresh surface and context handles.
    pub next_handle: usize,
    /// Width reported for surface width queries.
    pub surface_width: i32,
    /// Height reported for surface height queries.
    pub surface_height: i32,
    /// Address reported for function pointer retrieval.
    pub proc_address: usize,
    /// Rendering API current to the calling thread.
    pub api: u32,
    /// Extended error code reported by the side-channel query.
    pub error_code: i32,
    /// Value reported for context attribute queries.
    pub context_attrib_value: i32,
    /// Context attached by the last successful make-current call.
    pub current_context: usize,
    /// Draw surface attached by the last successful make-current call.
    pub current_draw: usize,
    /// Read surface attached by the last successful make-current call.
    pub current_read: usize,
    /// How often surface destruction was attempted.
    pub destroy_surface_calls: usize,
    /// How often context destruction was attempted.
    pub destroy_context_calls: usize,
    /// How often display termination was attempted.
    pub terminate_calls: usize,
    /// How often attaching or detaching was attempted.
    pub make_current_calls: usize,
    /// How often a buffer swap was attempted.
    pub swap_buffers_calls: usize,
    /// How often initialization was attempted.
    pub initialize_calls: usize,
}

impl MockBackend {
    /// A mock with one available display, version 1.4, an empty
    /// configuration table, empty strings, nothing failing and no fill
    /// cap.
    pub fn new() -> (r: MockBackend)
        ensures
            r.display_handle == 1,
            r.version_major == 1,
            r.version_minor == 4,
            r.configs@.len() == 0,
            r.vendor@.len() == 0,
            r.version_string@.len() == 0,
            r.extensions@.len() == 0,
            r.client_apis@.len() == 0,
            r.fail@.len() == 0,
            r.fill_limit is None,
            r.next_handle == 0x1000,
            r.surface_width == 0,
            r.surface_height == 0,
            r.proc_address == 0,
            r.api == egl::EGL_OPENGL_ES_API,
            r.error_code == egl::EGL_SUCCESS,
            r.context_attrib_value == 0,
            r.current_context == 0,
            r.current_draw == 0,
            r.current_read == 0,
            r.destroy_surface_calls == 0,
            r.destroy_context_calls == 0,
            r.terminate_calls == 0,
            r.make_current_calls == 0,
            r.swap_buffers_calls == 0,
            r.initialize_calls == 0,
    {
        MockBackend {
            display_handle: 1,
            version_major: 1,
            version_minor: 4,
            configs: Vec::new(),
            vendor: Vec::new(),
            version_string: Vec::new(),
            extensions: Vec::new(),
            client_apis: Vec::new(),
            fail: Vec::new(),
            fill_limit: None,
            next_handle: 0x1000,
            surface_width: 0,
            surface_height: 0,
            proc_address: 0,
            api: egl::EGL_OPENGL_ES_API,
            error_code: egl::EGL_SUCCESS,
            context_attrib_value: 0,
            current_context: 0,
            current_draw: 0,
            current_read: 0,
            destroy_surface_calls: 0,
            destroy_context_calls: 0,
            terminate_calls: 0,
            make_current_calls: 0,
            swap_buffers_calls: 0,
            initialize_calls: 0,
        }
    }

    /// Whether an operation was marked to report native failure.
    pub open spec fn spec_fails(self, op: EglCallError) -> bool {
        exists|i: int| 0 <= i < self.fail@.len() && self.fail@[i] == op
    }

    /// Whether an operation was marked to report native failure.
    pub fn fails(&self, op: EglCallError) -> (r: bool)
        ensures
            r == self.spec_fails(op),
    {
        let mut idx: usize = 0;
        while idx < self.fail.len()
            invariant
                idx <= self.fail@.len(),
                forall|i: int| 0 <= i < idx ==> self.fail@[i] != op,
            decreases self.fail@.len() - idx,
        {
            if self.fail[idx] == op {
                return true;
            }
            idx = idx + 1;
        }
        false
    }

    /// Hands out a fresh nonzero handle for a created surface or context.
    fn fresh_handle(&mut self) -> (r: usize)
        ensures
            r == old(self).next_handle,
            *final(self) == (MockBackend {
                next_handle: final(self).next_handle,
                ..*old(self)
            }),
    {
        let h = self.next_handle;
        self.next_handle = self.next_handle.saturating_add(1);
        h
    }
}

impl Backend for MockBackend {
    fn get_display(&mut self, display_id: usize) -> usize {
        if self.fails(EglCallError::GetDisplay) {
            0
        } else {
            self.display_handle
        }
    }

    fn initialize(&mut self, display: usize) -> (bool, i32, i32) {
        self.initialize_calls = self.initialize_calls.saturating_add(1);
        if self.fails(EglCallError::Initialize) {
            (false, 0, 0)
        } else {
            (true, self.version_major, self.version_minor)
        }
    }

    fn terminate(&mut self, display: usize) -> bool {
        self.terminate_calls = self.terminate_calls.saturating_add(1);
        !self.fails(EglCallError::Terminate)
    }

    fn query_string(&mut self, display: usize, name: i32) -> Option<Vec<u8>> {
        if self.fails(EglCallError::QueryString) {
            None
        } else if name == egl::EGL_VENDOR {
            Some(copy_bytes(&self.vendor))
        } else if name == egl::EGL_VERSION {
            Some(copy_bytes(&self.version_string))
        } else if name == egl::EGL_EXTENSIONS {
            Some(copy_bytes(&self.extensions))
        } else if name == egl::EGL_CLIENT_APIS {
            Some(copy_bytes(&self.client_apis))
        } else {
            None
        }
    }

    fn get_configs_count(&mut self, display: usize) -> (bool, usize) {
        if self.fails(EglCallError::GetConfigs) {
            (false, 0)
        } else {
            (true, self.configs.len())
        }
    }

    fn get_configs_fill(&mut self, display: usize, capacity: usize) -> (r: (bool, Vec<usize>, usize)) {
        if self.fails(EglCallError::GetConfigs) {
            (false, Vec::new(), 0)
        } else {
            let mut all: Vec<usize> = Vec::new();
            let mut idx: usize = 0;
            while idx < self.configs.len()
                invariant
                    idx <= self.configs@.len(),
                    all@.len() == idx,
                decreases self.configs@.len() - idx,
            {
                all.push(idx + 1);
                idx = idx + 1;
            }
            let (buffer, written) = fill_buffer(&all, capacity, self.fill_limit);
            (true, buffer, written)
        }
    }

    fn choose_configs_count(&mut self, display: usize, attribs: &Vec<i32>) -> (bool, usize) {
        if self.fails(EglCallError::ChooseConfig) {
            return (false, 0);
        }
        match parse_pairs(attribs) {
            Some(pairs) => {
                if !all_codes_known(&pairs) {
                    return (false, 0);
                }
                let found = matching_handles(&self.configs, &pairs);
                (true, found.len())
            },
            None => (false, 0),
        }
    }

    fn choose_configs_fill(&mut self, display: usize, attribs: &Vec<i32>, capacity: usize) -> (r: (
        bool,
        Vec<usize>,
        usize,
    )) {
        if self.fails(EglCallError::ChooseConfig) {
            return (false, Vec::new(), 0);
        }
        match parse_pairs(attribs) {
            Some(pairs) => {
                if !all_codes_known(&pairs) {
                    return (false, Vec::new(), 0);
                }
                let found = matching_handles(&self.configs, &pairs);
                let (buffer, written) = fill_buffer(&found, capacity, self.fill_limit);
                (true, buffer, written)
            },
            None => (false, Vec::new(), 0),
        }
    }

    fn get_config_attrib(&mut self, display: usize, config: usize, attribute: i32) -> (bool, i32) {
        if self.fails(EglCallError::GetConfigAttrib) {
            return (false, 0);
        }
        if config == 0 || config > self.configs.len() {
            return (false, 0);
        }
        match self.configs[config - 1].attrib(attribute) {
            Some(value) => (true, value),
            None => (false, 0),
        }
    }

    fn create_window_surface(
        &mut self,
        display: usize,
        config: usize,
        window: usize,
        attribs: &Vec<i32>,
    ) -> usize {
        if self.fails(EglCallError::CreateWindowSurface) {
            0
        } else {
            self.fresh_handle()
        }
    }

    fn create_pixmap_surface(
        &mut self,
        display: usize,
        config: usize,
        pixmap: usize,
        attribs: &Vec<i32>,
    ) -> usize {
        if self.fails(EglCallError::CreatePixmapSurface) {
            0
        } else {
            self.fresh_handle()
        }
    }

    fn create_pbuffer_from_client_buffer(
        &mut self,
        display: usize,
        buffer_kind: u32,
        buffer: usize,
        config: usize,
        attribs: &Vec<i32>,
    ) -> usize {
        if self.fails(EglCallError::CreatePbufferFromClientBuffer) {
            0
        } else {
            self.fresh_handle()
        }
    }

    fn create_platform_window_surface(
        &mut self,
        display: usize,
        config: usize,
        native_window: usize,
        attribs: &Vec<i32>,
    ) -> usize {
        if self.fails(EglCallError::CreatePlatformWindowSurface) {
            0
        } else {
            self.fresh_handle()
        }
    }

    fn create_pbuffer_surface(&mut self, display: usize, config: usize, attribs: &Vec<i32>) -> usize {
        if self.fails(EglCallError::CreatePbufferSurface) {
            0
        } else {
            self.fresh_handle()
        }
    }

    fn create_context(
        &mut self,
        display: usize,
        config: usize,
        share_context: usize,
        attribs: &Vec<i32>,
    ) -> usize {
        if self.fails(EglCallError::CreateContext) {
            0
        } else {
            self.fresh_handle()
        }
    }

    fn make_current(&mut self, display: usize, draw: usize, read: usize, context: usize) -> bool {
        self.make_current_calls = self.make_current_calls.saturating_add(1);
        if self.fails(EglCallError::MakeCurrent) {
            false
        } else {
            self.current_context = context;
            self.current_draw = draw;
            self.current_read = read;
            true
        }
    }

    fn swap_buffers(&mut self, display: usize, surface: usize) -> bool {
        self.swap_buffers_calls = self.swap_buffers_calls.saturating_add(1);
        !self.fails(EglCallError::SwapBuffers)
    }

    fn destroy_surface(&mut self, display: usize, surface: usize) -> bool {
        self.destroy_surface_calls = self.destroy_surface_calls.saturating_add(1);
        !self.fails(EglCallError::DestroySurface)
    }

    fn destroy_context(&mut self, display: usize, context: usize) -> bool {
        self.destroy_context_calls = self.destroy_context_calls.saturating_add(1);
        !self.fails(EglCallError::DestroyContext)
    }

    fn query_surface(&mut self, display: usize, surface: usize, attribute: i32) -> (bool, i32) {
        if self.fails(EglCallError::QuerySurface) {
            (false, 0)
        } else if attribute == egl::EGL_WIDTH {
            (true, self.surface_width)
        } else if attribute == egl::EGL_HEIGHT {
            (true, self.surface_height)
        } else {
            (false, 0)
        }
    }

    fn get_proc_address(&mut self, procname: &str) -> usize {
        self.proc_address
    }

    fn bind_api(&mut self, api: u32) -> bool {
        if self.fails(EglCallError::BindAPI) {
            false
        } else {
            self.api = api;
            true
        }
    }

    fn query_api(&mut self) -> u32 {
        self.api
    }

    fn bind_tex_image(&mut self, display: usize, surface: usize, buffer: i32) -> bool {
        !self.fails(EglCallError::BindTexImage)
    }

    fn release_tex_image(&mut self, display: usize, surface: usize, buffer: i32) -> bool {
        !self.fails(EglCallError::ReleaseTexImage)
    }

    fn copy_buffers(&mut self, display: usize, surface: usize, target: usize) -> bool {
        !self.fails(EglCallError::CopyBuffers)
    }

    fn get_current_context(&mut self) -> usize {
        if self.fails(EglCallError::GetCurrentContext) {
            0
        } else {
            self.current_context
        }
    }

    fn get_current_display(&mut self) -> usize {
        if self.fails(EglCallError::GetCurrentDisplay) || self.current_context == 0 {
            0
        } else {
            self.display_handle
        }
    }

    fn get_current_surface(&mut self, readdraw: i32) -> usize {
        if self.fails(EglCallError::GetCurrentSurface) {
            0
        } else if readdraw == egl::EGL_DRAW {
            self.current_draw
        } else if readdraw == egl::EGL_READ {
            self.current_read
        } else {
            0
        }
    }

    fn get_error(&mut self) -> i32 {
        self.error_code
    }

    fn query_context(&mut self, display: usize, context: usize, attribute: i32) -> (bool, i32) {
        if self.fails(EglCallError::QueryContext) {
            (false, 0)
        } else {
            (true, self.context_attrib_value)
        }
    }

    fn surface_attrib(&mut self, display: usize, surface: usize, attribute: i32, value: i32) -> bool {
        !self.fails(EglCallError::SurfaceAttrib)
    }

    fn swap_interval(&mut self, display: usize, interval: i32) -> bool {
        !self.fails(EglCallError::SwapInterval)
    }

    fn release_thread(&mut self) -> bool {
        !self.fails(EglCallError::ReleaseThread)
    }

    fn wait_client(&mut self) -> bool {
        !self.fails(EglCallError::WaitClient)
    }

    fn wait_gl(&mut self) -> bool {
        !self.fails(EglCallError::WaitGL)
    }

    fn wait_native(&mut self, engine: i32) -> bool {
        !self.fails(EglCallError::WaitNative)
    }
}

} // verus!
