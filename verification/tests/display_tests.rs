//! Display operations: enumeration, strings, ownership and cleanup.

use egli::egl;
use egli::{Display, MockBackend, MockConfig, Version};

fn ready(mock: &mut MockBackend) -> Display {
    Display::from_default_display(mock).expect("mock display should resolve")
}

#[test]
fn initialize_reports_mock_version() {
    let mut mock = MockBackend::new();
    mock.version_major = 1;
    mock.version_minor = 4;
    let display = ready(&mut mock);
    let version = display.initialize_and_get_version(&mut mock).expect("initialize");
    assert_eq!(version, Version { major: 1, minor: 4 });
    assert!(display.initialize(&mut mock).is_ok());
    assert_eq!(mock.initialize_calls, 2);
}

#[test]
fn initialize_is_idempotent_on_reported_version() {
    let mut mock = MockBackend::new();
    let display = ready(&mut mock);
    let first = display.initialize_and_get_version(&mut mock).expect("first");
    let second = display.initialize_and_get_version(&mut mock).expect("second");
    assert_eq!(first, second);
}

#[test]
fn enumeration_returns_every_configuration() {
    let mut mock = MockBackend::new();
    for id in 1..=3 {
        mock.configs.push(MockConfig::new(id));
    }
    let display = ready(&mut mock);
    let configs = display.get_configs(&mut mock).expect("enumeration");
    assert_eq!(configs.len(), 3);
    let ids: Vec<i32> = configs
        .iter()
        .map(|c| c.config_id(&mut mock).expect("id"))
        .collect();
    assert_eq!(ids, vec![1, 2, 3]);
}

#[test]
fn two_call_enumeration_keeps_reported_count_not_announced_count() {
    let mut mock = MockBackend::new();
    for id in 1..=3 {
        mock.configs.push(MockConfig::new(id));
    }
    // The count call announces three entries; the fill call writes two.
    mock.fill_limit = Some(2);
    let display = ready(&mut mock);
    let configs = display.get_configs(&mut mock).expect("enumeration");
    assert_eq!(configs.len(), 2);
}

#[test]
fn string_queries_decode_reported_bytes() {
    let mut mock = MockBackend::new();
    mock.vendor = b"Acme".to_vec();
    mock.version_string = b"1.4 mock".to_vec();
    mock.extensions = b"EGL_KHR_image EGL_KHR_fence_sync".to_vec();
    mock.client_apis = b"OpenGL_ES".to_vec();
    let display = ready(&mut mock);
    assert_eq!(display.query_vendor(&mut mock).expect("vendor"), "Acme");
    assert_eq!(display.query_version(&mut mock).expect("version"), "1.4 mock");
    assert_eq!(
        display.query_extensions(&mut mock).expect("extensions"),
        "EGL_KHR_image EGL_KHR_fence_sync"
    );
    assert_eq!(display.query_client_apis(&mut mock).expect("apis"), "OpenGL_ES");
}

#[test]
fn client_level_queries_use_no_display() {
    let mut mock = MockBackend::new();
    mock.version_string = b"1.4".to_vec();
    mock.extensions = b"EGL_EXT_platform_base".to_vec();
    assert_eq!(egli::query_version(&mut mock).expect("version"), "1.4");
    assert_eq!(
        egli::query_extensions(&mut mock).expect("extensions"),
        "EGL_EXT_platform_base"
    );
}

#[test]
fn surface_reports_mock_dimensions() {
    let mut mock = MockBackend::new();
    mock.configs.push(MockConfig::new(1));
    mock.surface_width = 640;
    mock.surface_height = 480;
    let display = ready(&mut mock);
    let configs = display.get_configs(&mut mock).expect("enumeration");
    let surface = display
        .create_pbuffer_surface(&mut mock, configs[0], 640, 480)
        .expect("surface");
    assert_eq!(surface.query_width(&mut mock).expect("width"), 640);
    assert_eq!(surface.query_height(&mut mock).expect("height"), 480);
}

#[test]
fn created_handles_are_nonzero_and_tied_to_display() {
    let mut mock = MockBackend::new();
    mock.configs.push(MockConfig::new(1));
    let display = ready(&mut mock);
    let configs = display.get_configs(&mut mock).expect("enumeration");
    let surface = display.create_window_surface(&mut mock, configs[0], 0x77).expect("surface");
    let context = display.create_context(&mut mock, configs[0]).expect("context");
    assert_ne!(surface.handle(), egl::EGL_NO_SURFACE);
    assert_ne!(context.handle(), egl::EGL_NO_CONTEXT);
    assert_eq!(surface.display_handle(), context.display_handle());
    assert_ne!(surface.handle(), context.handle());
}

#[test]
fn make_current_and_swap_buffers_succeed_on_mock() {
    let mut mock = MockBackend::new();
    mock.configs.push(MockConfig::new(1));
    let display = ready(&mut mock);
    let configs = display.get_configs(&mut mock).expect("enumeration");
    let surface = display.create_window_surface(&mut mock, configs[0], 0x77).expect("surface");
    let context = display.create_context(&mut mock, configs[0]).expect("context");
    assert!(display.make_current(&mut mock, &surface, &surface, &context).is_ok());
    assert!(display.swap_buffers(&mut mock, &surface).is_ok());
    assert!(display.make_not_current(&mut mock).is_ok());
    assert_eq!(mock.make_current_calls, 2);
    assert_eq!(mock.swap_buffers_calls, 1);
}

#[test]
fn destroy_invokes_native_destroy_once() {
    let mut mock = MockBackend::new();
    mock.configs.push(MockConfig::new(1));
    let display = ready(&mut mock);
    let configs = display.get_configs(&mut mock).expect("enumeration");
    let surface = display.create_window_surface(&mut mock, configs[0], 0x77).expect("surface");
    let context = display.create_context(&mut mock, configs[0]).expect("context");
    assert_eq!(mock.destroy_surface_calls, 0);
    assert_eq!(mock.destroy_context_calls, 0);
    assert!(surface.destroy(&mut mock).is_ok());
    assert!(context.destroy(&mut mock).is_ok());
    assert_eq!(mock.destroy_surface_calls, 1);
    assert_eq!(mock.destroy_context_calls, 1);
}

#[test]
fn forget_returns_handle_and_skips_native_destroy() {
    let mut mock = MockBackend::new();
    mock.configs.push(MockConfig::new(1));
    let display = ready(&mut mock);
    let configs = display.get_configs(&mut mock).expect("enumeration");
    let surface = display.create_window_surface(&mut mock, configs[0], 0x77).expect("surface");
    let context = display.create_context(&mut mock, configs[0]).expect("context");
    let surface_handle = surface.handle();
    let context_handle = context.handle();
    assert_eq!(surface.forget(), surface_handle);
    assert_eq!(context.forget(), context_handle);
    assert_eq!(mock.destroy_surface_calls, 0);
    assert_eq!(mock.destroy_context_calls, 0);
    let display_handle = display.forget();
    assert_eq!(display_handle, 1);
    assert_eq!(mock.terminate_calls, 0);
    assert_eq!(mock.make_current_calls, 0);
}

#[test]
fn terminate_detaches_then_terminates() {
    let mut mock = MockBackend::new();
    let display = ready(&mut mock);
    assert!(display.terminate(&mut mock).is_ok());
    assert_eq!(mock.make_current_calls, 1);
    assert_eq!(mock.terminate_calls, 1);
}

#[test]
fn with_handle_passes_raw_handle_to_action() {
    let mut mock = MockBackend::new();
    mock.display_handle = 42;
    let display = ready(&mut mock);
    let seen = display.with_handle(|h| h);
    assert_eq!(seen, 42);
    let doubled = display.with_handle(|h| h * 2);
    assert_eq!(doubled, 84);
}

#[test]
fn config_attribute_getters_read_their_own_attribute() {
    let mut mock = MockBackend::new();
    let mut cfg = MockConfig::new(9);
    cfg.buffer_size = 32;
    cfg.red_size = 8;
    cfg.green_size = 8;
    cfg.blue_size = 8;
    cfg.alpha_size = 8;
    cfg.depth_size = 24;
    cfg.stencil_size = 8;
    cfg.level = -1;
    cfg.native_renderable = egl::EGL_TRUE;
    cfg.bind_to_texture_rgb = egl::EGL_TRUE;
    cfg.bind_to_texture_rgba = egl::EGL_FALSE;
    cfg.max_pbuffer_width = 4096;
    cfg.max_pbuffer_height = 2048;
    cfg.max_pbuffer_pixels = 4096 * 2048;
    cfg.max_swap_interval = 4;
    cfg.min_swap_interval = 0;
    cfg.native_visual_id = 33;
    cfg.native_visual_type = 4;
    cfg.sample_buffers = 1;
    cfg.samples = 4;
    cfg.luminance_size = 0;
    cfg.alpha_mask_size = 2;
    cfg.renderable_type = 0x0045;
    cfg.surface_type = 0x0005;
    cfg.conformant = 0x0005;
    cfg.config_caveat = egl::EGL_SLOW_CONFIG;
    cfg.color_buffer_type = egl::EGL_RGB_BUFFER;
    cfg.transparent_type = egl::EGL_TRANSPARENT_RGB;
    cfg.transparent_red_value = 10;
    cfg.transparent_green_value = 20;
    cfg.transparent_blue_value = 30;
    mock.configs.push(cfg);
    let display = ready(&mut mock);
    let config = display.get_configs(&mut mock).expect("enumeration")[0];
    assert_eq!(config.config_id(&mut mock).unwrap(), 9);
    assert_eq!(config.buffer_size(&mut mock).unwrap(), 32);
    assert_eq!(config.red_size(&mut mock).unwrap(), 8);
    assert_eq!(config.green_size(&mut mock).unwrap(), 8);
    assert_eq!(config.blue_size(&mut mock).unwrap(), 8);
    assert_eq!(config.alpha_size(&mut mock).unwrap(), 8);
    assert_eq!(config.depth_size(&mut mock).unwrap(), 24);
    assert_eq!(config.stencil_size(&mut mock).unwrap(), 8);
    assert_eq!(config.level(&mut mock).unwrap(), -1);
    assert!(config.native_renderable(&mut mock).unwrap());
    assert!(config.bind_to_texture_rgb(&mut mock).unwrap());
    assert!(!config.bind_to_texture_rgba(&mut mock).unwrap());
    assert_eq!(config.max_pbuffer_width(&mut mock).unwrap(), 4096);
    assert_eq!(config.max_pbuffer_height(&mut mock).unwrap(), 2048);
    assert_eq!(config.max_pbuffer_pixels(&mut mock).unwrap(), 4096 * 2048);
    assert_eq!(config.max_swap_interval(&mut mock).unwrap(), 4);
    assert_eq!(config.min_swap_interval(&mut mock).unwrap(), 0);
    assert_eq!(config.native_visual_id(&mut mock).unwrap(), 33);
    assert_eq!(config.native_visual_type(&mut mock).unwrap(), 4);
    assert_eq!(config.sample_buffers(&mut mock).unwrap(), 1);
    assert_eq!(config.samples(&mut mock).unwrap(), 4);
    assert_eq!(config.luminance_size(&mut mock).unwrap(), 0);
    assert_eq!(config.alpha_mask_size(&mut mock).unwrap(), 2);
    assert_eq!(config.renderable_type(&mut mock).unwrap().bits(), 0x0045);
    assert_eq!(config.surface_type(&mut mock).unwrap().bits(), 0x0005);
    assert_eq!(config.conformant(&mut mock).unwrap().bits(), 0x0005);
    assert_eq!(
        config.config_caveat(&mut mock).unwrap(),
        Some(egli::ConfigCaveat::Slow)
    );
    assert_eq!(
        config.color_buffer_type(&mut mock).unwrap(),
        Some(egli::ColorBufferType::Rgb)
    );
    assert_eq!(
        config.transparent_type(&mut mock).unwrap(),
        Some(egli::TransparentType::TransparentRgb)
    );
    assert_eq!(config.transparent_red_value(&mut mock).unwrap(), 10);
    assert_eq!(config.transparent_green_value(&mut mock).unwrap(), 20);
    assert_eq!(config.transparent_blue_value(&mut mock).unwrap(), 30);
}

#[test]
fn typed_attribute_values_decode_raw_codes() {
    assert_eq!(egli::ColorBufferType::from_raw(0x308E), Some(egli::ColorBufferType::Rgb));
    assert_eq!(
        egli::ColorBufferType::from_raw(0x308F),
        Some(egli::ColorBufferType::Luminance)
    );
    assert_eq!(egli::ColorBufferType::from_raw(0), None);
    assert_eq!(egli::ConfigCaveat::from_raw(0x3038), Some(egli::ConfigCaveat::NoCaveat));
    assert_eq!(
        egli::ConfigCaveat::from_raw(0x3051),
        Some(egli::ConfigCaveat::NonConformant)
    );
    assert_eq!(egli::ConfigCaveat::from_raw(7), None);
    assert_eq!(
        egli::TransparentType::from_raw(0x3052),
        Some(egli::TransparentType::TransparentRgb)
    );
    assert_eq!(egli::TransparentType::from_raw(0x3038), Some(egli::TransparentType::Opaque));
    assert_eq!(egli::TransparentType::from_raw(1), None);
}

#[test]
fn proc_address_is_reported_as_plain_value() {
    let mut mock = MockBackend::new();
    assert_eq!(egli::get_proc_address(&mut mock, "eglCreateImageKHR"), 0);
    mock.proc_address = 0x5A5A;
    assert_eq!(egli::get_proc_address(&mut mock, "eglCreateImageKHR"), 0x5A5A);
}
