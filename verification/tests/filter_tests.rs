//! Attribute list construction and filtered selection.

use egli::egl;
use egli::{
    ColorBufferType, ConfigCaveat, ConfigFilterRef, Display, EglCallError, Error, MockBackend,
    MockConfig, RenderableType, SurfaceType, TransparentType, Version,
};

fn display_of(mock: &mut MockBackend) -> Display {
    Display::from_default_display(mock).expect("mock display should resolve")
}

#[test]
fn empty_filter_attrib_list_is_terminator_only() {
    let filter = ConfigFilterRef::from_native(1);
    assert_eq!(filter.attrib_list(), vec![egl::EGL_NONE]);
}

#[test]
fn same_criterion_twice_keeps_later_value_once() {
    let filter = ConfigFilterRef::from_native(1).with_red_size(4).with_red_size(8);
    let list = filter.attrib_list();
    assert_eq!(list, vec![egl::EGL_RED_SIZE, 8, egl::EGL_NONE]);
    let occurrences = list.iter().filter(|&&code| code == egl::EGL_RED_SIZE).count();
    assert_eq!(occurrences, 1);
}

#[test]
fn attrib_list_has_no_duplicate_codes_after_heavy_chaining() {
    let filter = ConfigFilterRef::from_native(1)
        .with_red_size(1)
        .with_green_size(2)
        .with_blue_size(3)
        .with_red_size(8)
        .with_green_size(8)
        .with_depth_size(24)
        .with_depth_size(16);
    let list = filter.attrib_list();
    // Codes stand at even positions; the final entry is the terminator.
    assert_eq!(list[list.len() - 1], egl::EGL_NONE);
    let codes: Vec<i32> = list[..list.len() - 1].iter().step_by(2).cloned().collect();
    let mut unique = codes.clone();
    unique.sort();
    unique.dedup();
    assert_eq!(codes.len(), unique.len());
    assert_eq!(codes.len(), 4);
}

#[test]
fn attrib_list_keeps_fixed_criterion_order() {
    let filter = ConfigFilterRef::from_native(1)
        .with_stencil_size(8)
        .with_alpha_size(8)
        .with_buffer_size(32);
    assert_eq!(
        filter.attrib_list(),
        vec![
            egl::EGL_ALPHA_SIZE,
            8,
            egl::EGL_BUFFER_SIZE,
            32,
            egl::EGL_STENCIL_SIZE,
            8,
            egl::EGL_NONE,
        ]
    );
}

#[test]
fn optional_bool_criteria_map_to_native_codes() {
    let dont_care = ConfigFilterRef::from_native(1).with_native_renderable(None);
    assert_eq!(
        dont_care.attrib_list(),
        vec![egl::EGL_NATIVE_RENDERABLE, egl::EGL_DONT_CARE, egl::EGL_NONE]
    );
    let yes = ConfigFilterRef::from_native(1).with_bind_to_texture_rgb(Some(true));
    assert_eq!(
        yes.attrib_list(),
        vec![egl::EGL_BIND_TO_TEXTURE_RGB, egl::EGL_TRUE, egl::EGL_NONE]
    );
    let no = ConfigFilterRef::from_native(1).with_bind_to_texture_rgba(Some(false));
    assert_eq!(
        no.attrib_list(),
        vec![egl::EGL_BIND_TO_TEXTURE_RGBA, egl::EGL_FALSE, egl::EGL_NONE]
    );
}

#[test]
fn enum_criteria_map_to_native_codes() {
    let caveat = ConfigFilterRef::from_native(1).with_config_caveat(Some(ConfigCaveat::Slow));
    assert_eq!(
        caveat.attrib_list(),
        vec![egl::EGL_CONFIG_CAVEAT, egl::EGL_SLOW_CONFIG, egl::EGL_NONE]
    );
    let caveat_absent = ConfigFilterRef::from_native(1).with_config_caveat(None);
    assert_eq!(
        caveat_absent.attrib_list(),
        vec![egl::EGL_CONFIG_CAVEAT, egl::EGL_DONT_CARE, egl::EGL_NONE]
    );
    let luminance = ConfigFilterRef::from_native(1).with_color_buffer_type(
        ColorBufferType::Luminance,
    );
    assert_eq!(
        luminance.attrib_list(),
        vec![egl::EGL_COLOR_BUFFER_TYPE, egl::EGL_LUMINANCE_BUFFER, egl::EGL_NONE]
    );
    let transparent = ConfigFilterRef::from_native(1).with_transparent_type(
        TransparentType::TransparentRgb,
    );
    assert_eq!(
        transparent.attrib_list(),
        vec![egl::EGL_TRANSPARENT_TYPE, egl::EGL_TRANSPARENT_RGB, egl::EGL_NONE]
    );
}

#[test]
fn mask_criteria_use_raw_bits() {
    let mask = RenderableType::opengl().union(RenderableType::opengl_es2());
    assert_eq!(mask.bits(), 0x000C);
    let filter = ConfigFilterRef::from_native(1).with_renderable_type(mask);
    assert_eq!(
        filter.attrib_list(),
        vec![egl::EGL_RENDERABLE_TYPE, 0x000C, egl::EGL_NONE]
    );
    let surface = ConfigFilterRef::from_native(1).with_surface_type(
        SurfaceType::window().union(SurfaceType::pbuffer()),
    );
    assert_eq!(
        surface.attrib_list(),
        vec![egl::EGL_SURFACE_TYPE, 0x0005, egl::EGL_NONE]
    );
}

#[test]
fn mask_from_bits_truncate_drops_undefined_bits() {
    assert_eq!(RenderableType::from_bits_truncate(-1).bits(), 0x004F);
    assert_eq!(SurfaceType::from_bits_truncate(-1).bits(), 0x0667);
    assert!(RenderableType::from_bits_truncate(0x0049).contains(RenderableType::opengl()));
    assert!(!RenderableType::from_bits_truncate(0x0041).contains(RenderableType::opengl()));
}

#[test]
fn empty_filter_selects_default_configuration() {
    let mut mock = MockBackend::new();
    mock.configs.push(MockConfig::new(7));
    let display = display_of(&mut mock);
    let configs = display.config_filter().choose_configs(&mut mock).expect("selection");
    assert_eq!(configs.len(), 1);
    assert_eq!(configs[0].config_id(&mut mock).expect("id"), 7);
}

#[test]
fn filter_excludes_non_matching_configurations() {
    let mut mock = MockBackend::new();
    let mut small = MockConfig::new(1);
    small.red_size = 5;
    small.green_size = 6;
    small.blue_size = 5;
    let mut big = MockConfig::new(2);
    big.red_size = 8;
    big.green_size = 8;
    big.blue_size = 8;
    mock.configs.push(small);
    mock.configs.push(big);
    let display = display_of(&mut mock);
    let configs = display
        .config_filter()
        .with_red_size(8)
        .choose_configs(&mut mock)
        .expect("selection");
    assert_eq!(configs.len(), 1);
    assert_eq!(configs[0].config_id(&mut mock).expect("id"), 2);
}

#[test]
fn filter_with_no_match_returns_empty_list_not_error() {
    let mut mock = MockBackend::new();
    mock.configs.push(MockConfig::new(1));
    let display = display_of(&mut mock);
    let configs = display
        .config_filter()
        .with_red_size(16)
        .choose_configs(&mut mock)
        .expect("an empty match is a success");
    assert!(configs.is_empty());
}

#[test]
fn scenario_rgba8_matches_single_config() {
    let mut mock = MockBackend::new();
    mock.version_major = 1;
    mock.version_minor = 4;
    let mut matching = MockConfig::new(3);
    matching.red_size = 8;
    matching.green_size = 8;
    matching.blue_size = 8;
    matching.alpha_size = 8;
    let mut rgb565 = MockConfig::new(1);
    rgb565.red_size = 5;
    rgb565.green_size = 6;
    rgb565.blue_size = 5;
    let mut rgba4 = MockConfig::new(2);
    rgba4.red_size = 4;
    rgba4.green_size = 4;
    rgba4.blue_size = 4;
    rgba4.alpha_size = 4;
    mock.configs.push(rgb565);
    mock.configs.push(rgba4);
    mock.configs.push(matching);
    let display = display_of(&mut mock);
    assert_eq!(
        display.initialize_and_get_version(&mut mock).expect("initialize"),
        Version { major: 1, minor: 4 }
    );
    let configs = display
        .config_filter()
        .with_red_size(8)
        .with_green_size(8)
        .with_blue_size(8)
        .with_alpha_size(8)
        .choose_configs(&mut mock)
        .expect("selection");
    assert_eq!(configs.len(), 1);
    assert_eq!(configs[0].red_size(&mut mock).expect("red"), 8);
}

#[test]
fn round_trip_enumeration_agrees_with_config_id_filter() {
    let mut mock = MockBackend::new();
    for id in 1..=3 {
        let mut cfg = MockConfig::new(id);
        cfg.red_size = id + 4;
        cfg.green_size = id + 5;
        cfg.blue_size = id + 6;
        cfg.alpha_size = id;
        mock.configs.push(cfg);
    }
    let display = display_of(&mut mock);
    let all = display.get_configs(&mut mock).expect("enumeration");
    assert_eq!(all.len(), 3);
    for config in all {
        let id = config.config_id(&mut mock).expect("id");
        let selected = display
            .config_filter()
            .with_config_id(Some(id))
            .choose_configs(&mut mock)
            .expect("selection");
        assert_eq!(selected.len(), 1);
        let twin = selected[0];
        assert_eq!(
            config.red_size(&mut mock).expect("red"),
            twin.red_size(&mut mock).expect("red")
        );
        assert_eq!(
            config.green_size(&mut mock).expect("green"),
            twin.green_size(&mut mock).expect("green")
        );
        assert_eq!(
            config.blue_size(&mut mock).expect("blue"),
            twin.blue_size(&mut mock).expect("blue")
        );
        assert_eq!(
            config.alpha_size(&mut mock).expect("alpha"),
            twin.alpha_size(&mut mock).expect("alpha")
        );
    }
}

#[test]
fn choose_configs_failure_uses_choose_config_tag() {
    let mut mock = MockBackend::new();
    mock.configs.push(MockConfig::new(1));
    mock.fail.push(EglCallError::ChooseConfig);
    let display = display_of(&mut mock);
    let result = display.config_filter().choose_configs(&mut mock);
    assert_eq!(result.unwrap_err(), Error::Egl(EglCallError::ChooseConfig));
}

#[test]
fn unlisted_surface_type_defaults_to_window_requirement() {
    let mut mock = MockBackend::new();
    let mut pbuffer_only = MockConfig::new(1);
    pbuffer_only.surface_type = 0x0001;
    mock.configs.push(pbuffer_only);
    mock.configs.push(MockConfig::new(2));
    let display = display_of(&mut mock);
    // No surface-type criterion set: the native default requires window
    // support, so only the second configuration matches.
    let configs = display.config_filter().choose_configs(&mut mock).expect("selection");
    assert_eq!(configs.len(), 1);
    assert_eq!(configs[0].config_id(&mut mock).expect("id"), 2);
    // An explicit pbuffer criterion brings the first one back.
    let pbuffers = display
        .config_filter()
        .with_surface_type(SurfaceType::pbuffer())
        .choose_configs(&mut mock)
        .expect("selection");
    assert_eq!(pbuffers.len(), 1);
    assert_eq!(pbuffers[0].config_id(&mut mock).expect("id"), 1);
}

#[test]
fn filtered_two_call_selection_keeps_reported_count() {
    let mut mock = MockBackend::new();
    for id in 1..=3 {
        mock.configs.push(MockConfig::new(id));
    }
    mock.fill_limit = Some(1);
    let display = display_of(&mut mock);
    let configs = display.config_filter().choose_configs(&mut mock).expect("selection");
    assert_eq!(configs.len(), 1);
}

#[test]
fn selection_preserves_table_order() {
    let mut mock = MockBackend::new();
    for id in [5, 3, 9, 1] {
        mock.configs.push(MockConfig::new(id));
    }
    let display = display_of(&mut mock);
    let configs = display.config_filter().choose_configs(&mut mock).expect("selection");
    let ids: Vec<i32> = configs
        .iter()
        .map(|c| c.config_id(&mut mock).expect("id"))
        .collect();
    assert_eq!(ids, vec![5, 3, 9, 1]);
}

#[test]
fn dont_care_criterion_excludes_nothing() {
    let mut mock = MockBackend::new();
    mock.configs.push(MockConfig::new(1));
    mock.configs.push(MockConfig::new(2));
    let display = display_of(&mut mock);
    let configs = display
        .config_filter()
        .with_config_id(None)
        .with_native_renderable(None)
        .choose_configs(&mut mock)
        .expect("selection");
    assert_eq!(configs.len(), 2);
}

#[test]
fn mask_criterion_requires_every_requested_bit() {
    let mut mock = MockBackend::new();
    let mut gl_only = MockConfig::new(1);
    gl_only.renderable_type = 0x0008;
    let mut gl_and_es2 = MockConfig::new(2);
    gl_and_es2.renderable_type = 0x000C;
    mock.configs.push(gl_only);
    mock.configs.push(gl_and_es2);
    let display = display_of(&mut mock);
    let configs = display
        .config_filter()
        .with_renderable_type(RenderableType::opengl().union(RenderableType::opengl_es2()))
        .choose_configs(&mut mock)
        .expect("selection");
    assert_eq!(configs.len(), 1);
    assert_eq!(configs[0].config_id(&mut mock).expect("id"), 2);
}

#[test]
fn config_id_criterion_overrides_every_other_criterion() {
    let mut mock = MockBackend::new();
    // A pbuffer-only entry: the default window requirement would exclude it.
    let mut pbuffer_only = MockConfig::new(6);
    pbuffer_only.surface_type = 0x0001;
    mock.configs.push(pbuffer_only);
    let display = display_of(&mut mock);
    let configs = display
        .config_filter()
        .with_config_id(Some(6))
        .with_red_size(99)
        .choose_configs(&mut mock)
        .expect("selection");
    assert_eq!(configs.len(), 1);
    assert_eq!(configs[0].config_id(&mut mock).expect("id"), 6);
}
