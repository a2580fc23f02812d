//! The typed call layer: per-operation tags and pass-through values.

use egli::calls;
use egli::egl;
use egli::{Backend, EglCallError, MockBackend, MockConfig};

fn failing(op: EglCallError) -> MockBackend {
    let mut mock = MockBackend::new();
    mock.configs.push(MockConfig::new(1));
    mock.fail.push(op);
    mock
}

#[test]
fn failing_bind_api_reports_bind_api() {
    let mut mock = failing(EglCallError::BindAPI);
    assert_eq!(
        calls::bind_api(&mut mock, egl::EGL_OPENGL_API).unwrap_err(),
        EglCallError::BindAPI
    );
}

#[test]
fn bind_api_changes_the_reported_api() {
    let mut mock = MockBackend::new();
    assert_eq!(calls::query_api(&mut mock), egl::EGL_OPENGL_ES_API);
    assert!(calls::bind_api(&mut mock, egl::EGL_OPENVG_API).is_ok());
    assert_eq!(calls::query_api(&mut mock), egl::EGL_OPENVG_API);
}

#[test]
fn failing_bind_tex_image_reports_bind_tex_image() {
    let mut mock = failing(EglCallError::BindTexImage);
    assert_eq!(
        calls::bind_tex_image(&mut mock, 1, 0x10, egl::EGL_BACK_BUFFER).unwrap_err(),
        EglCallError::BindTexImage
    );
}

#[test]
fn failing_release_tex_image_reports_release_tex_image() {
    let mut mock = failing(EglCallError::ReleaseTexImage);
    assert_eq!(
        calls::release_tex_image(&mut mock, 1, 0x10, egl::EGL_BACK_BUFFER).unwrap_err(),
        EglCallError::ReleaseTexImage
    );
}

#[test]
fn failing_copy_buffers_reports_copy_buffers() {
    let mut mock = failing(EglCallError::CopyBuffers);
    assert_eq!(
        calls::copy_buffers(&mut mock, 1, 0x10, 0x20).unwrap_err(),
        EglCallError::CopyBuffers
    );
}

#[test]
fn failing_create_pixmap_surface_reports_its_tag() {
    let mut mock = failing(EglCallError::CreatePixmapSurface);
    let attribs = vec![egl::EGL_NONE];
    assert_eq!(
        calls::create_pixmap_surface(&mut mock, 1, 1, 0x30, &attribs).unwrap_err(),
        EglCallError::CreatePixmapSurface
    );
}

#[test]
fn create_pixmap_surface_hands_out_a_nonzero_handle() {
    let mut mock = MockBackend::new();
    mock.configs.push(MockConfig::new(1));
    let attribs = vec![egl::EGL_NONE];
    let handle = calls::create_pixmap_surface(&mut mock, 1, 1, 0x30, &attribs).expect("surface");
    assert_ne!(handle, 0);
}

#[test]
fn failing_create_pbuffer_from_client_buffer_reports_its_tag() {
    let mut mock = failing(EglCallError::CreatePbufferFromClientBuffer);
    let attribs = vec![egl::EGL_NONE];
    assert_eq!(
        calls::create_pbuffer_from_client_buffer(
            &mut mock,
            1,
            egl::EGL_OPENVG_IMAGE,
            0x40,
            1,
            &attribs,
        )
        .unwrap_err(),
        EglCallError::CreatePbufferFromClientBuffer
    );
}

#[test]
fn failing_create_platform_window_surface_reports_its_tag() {
    let mut mock = failing(EglCallError::CreatePlatformWindowSurface);
    let attribs = vec![egl::EGL_NONE];
    assert_eq!(
        calls::create_platform_window_surface(&mut mock, 1, 1, 0x50, &attribs).unwrap_err(),
        EglCallError::CreatePlatformWindowSurface
    );
}

#[test]
fn failing_window_surface_with_attribs_reports_create_window_surface() {
    let mut mock = failing(EglCallError::CreateWindowSurface);
    let attribs = vec![egl::EGL_NONE];
    assert_eq!(
        calls::create_window_surface_with_attribs(&mut mock, 1, 1, 0x60, &attribs).unwrap_err(),
        EglCallError::CreateWindowSurface
    );
}

#[test]
fn current_bindings_follow_make_current() {
    let mut mock = MockBackend::new();
    // Nothing is current yet: the null handles surface as the typed tags.
    assert_eq!(
        calls::get_current_context(&mut mock).unwrap_err(),
        EglCallError::GetCurrentContext
    );
    assert_eq!(
        calls::get_current_display(&mut mock).unwrap_err(),
        EglCallError::GetCurrentDisplay
    );
    assert_eq!(
        calls::get_current_surface(&mut mock, egl::EGL_DRAW).unwrap_err(),
        EglCallError::GetCurrentSurface
    );
    assert!(mock.make_current(1, 0x11, 0x12, 0x13));
    assert_eq!(calls::get_current_context(&mut mock).expect("context"), 0x13);
    assert_eq!(calls::get_current_display(&mut mock).expect("display"), 1);
    assert_eq!(
        calls::get_current_surface(&mut mock, egl::EGL_DRAW).expect("draw"),
        0x11
    );
    assert_eq!(
        calls::get_current_surface(&mut mock, egl::EGL_READ).expect("read"),
        0x12
    );
}

#[test]
fn failing_current_queries_report_their_own_tags() {
    let mut mock = MockBackend::new();
    assert!(mock.make_current(1, 0x11, 0x12, 0x13));
    mock.fail.push(EglCallError::GetCurrentContext);
    mock.fail.push(EglCallError::GetCurrentDisplay);
    mock.fail.push(EglCallError::GetCurrentSurface);
    assert_eq!(
        calls::get_current_context(&mut mock).unwrap_err(),
        EglCallError::GetCurrentContext
    );
    assert_eq!(
        calls::get_current_display(&mut mock).unwrap_err(),
        EglCallError::GetCurrentDisplay
    );
    assert_eq!(
        calls::get_current_surface(&mut mock, egl::EGL_READ).unwrap_err(),
        EglCallError::GetCurrentSurface
    );
}

#[test]
fn get_error_reports_the_side_channel_code() {
    let mut mock = MockBackend::new();
    assert_eq!(calls::get_error(&mut mock), egl::EGL_SUCCESS);
    mock.error_code = egl::EGL_BAD_MATCH;
    assert_eq!(calls::get_error(&mut mock), egl::EGL_BAD_MATCH);
}

#[test]
fn query_context_reports_value_and_tag() {
    let mut mock = MockBackend::new();
    mock.context_attrib_value = 2;
    assert_eq!(
        calls::query_context(&mut mock, 1, 0x13, egl::EGL_CONTEXT_CLIENT_VERSION).expect("value"),
        2
    );
    mock.fail.push(EglCallError::QueryContext);
    assert_eq!(
        calls::query_context(&mut mock, 1, 0x13, egl::EGL_CONTEXT_CLIENT_VERSION).unwrap_err(),
        EglCallError::QueryContext
    );
}

#[test]
fn failing_surface_attrib_reports_surface_attrib() {
    let mut mock = failing(EglCallError::SurfaceAttrib);
    assert_eq!(
        calls::surface_attrib(&mut mock, 1, 0x10, egl::EGL_WIDTH, 64).unwrap_err(),
        EglCallError::SurfaceAttrib
    );
}

#[test]
fn failing_swap_interval_reports_swap_interval() {
    let mut mock = failing(EglCallError::SwapInterval);
    assert_eq!(
        calls::swap_interval(&mut mock, 1, 1).unwrap_err(),
        EglCallError::SwapInterval
    );
    let mut fine = MockBackend::new();
    assert!(calls::swap_interval(&mut fine, 1, 1).is_ok());
}

#[test]
fn failing_release_thread_reports_release_thread() {
    let mut mock = failing(EglCallError::ReleaseThread);
    assert_eq!(
        calls::release_thread(&mut mock).unwrap_err(),
        EglCallError::ReleaseThread
    );
}

#[test]
fn failing_waits_report_their_own_tags() {
    let mut mock = failing(EglCallError::WaitClient);
    assert_eq!(calls::wait_client(&mut mock).unwrap_err(), EglCallError::WaitClient);
    // The failure stays with its own operation.
    assert!(calls::wait_gl(&mut mock).is_ok());
    assert!(calls::wait_native(&mut mock, egl::EGL_CORE_NATIVE_ENGINE).is_ok());
    let mut gl = failing(EglCallError::WaitGL);
    assert_eq!(calls::wait_gl(&mut gl).unwrap_err(), EglCallError::WaitGL);
    let mut native = failing(EglCallError::WaitNative);
    assert_eq!(
        calls::wait_native(&mut native, egl::EGL_CORE_NATIVE_ENGINE).unwrap_err(),
        EglCallError::WaitNative
    );
}
