//! Every wrapped operation fails with its own tag, never another.

use egli::{query_extensions, query_version};
use egli::{Display, EglCallError, Error, MockBackend, MockConfig};

fn failing(op: EglCallError) -> MockBackend {
    let mut mock = MockBackend::new();
    mock.configs.push(MockConfig::new(1));
    mock.fail.push(op);
    mock
}

fn ready(mock: &mut MockBackend) -> Display {
    Display::from_default_display(mock).expect("mock display should resolve")
}

#[test]
fn absent_display_reports_get_display() {
    let mut mock = MockBackend::new();
    mock.display_handle = 0;
    let result = Display::from_default_display(&mut mock);
    assert_eq!(result.unwrap_err(), Error::Egl(EglCallError::GetDisplay));
}

#[test]
fn failing_get_display_reports_get_display() {
    let mut mock = failing(EglCallError::GetDisplay);
    let result = Display::from_display_id(&mut mock, 0);
    assert_eq!(result.unwrap_err(), Error::Egl(EglCallError::GetDisplay));
}

#[test]
fn failing_initialize_reports_initialize() {
    let mut mock = failing(EglCallError::Initialize);
    let display = ready(&mut mock);
    assert_eq!(
        display.initialize(&mut mock).unwrap_err(),
        Error::Egl(EglCallError::Initialize)
    );
    assert_eq!(
        display.initialize_and_get_version(&mut mock).unwrap_err(),
        Error::Egl(EglCallError::Initialize)
    );
}

#[test]
fn failing_query_string_reports_query_string() {
    let mut mock = failing(EglCallError::QueryString);
    let display = ready(&mut mock);
    assert_eq!(
        display.query_vendor(&mut mock).unwrap_err(),
        Error::Egl(EglCallError::QueryString)
    );
    assert_eq!(
        display.query_version(&mut mock).unwrap_err(),
        Error::Egl(EglCallError::QueryString)
    );
    assert_eq!(
        display.query_extensions(&mut mock).unwrap_err(),
        Error::Egl(EglCallError::QueryString)
    );
    assert_eq!(
        display.query_client_apis(&mut mock).unwrap_err(),
        Error::Egl(EglCallError::QueryString)
    );
    assert_eq!(
        query_version(&mut mock).unwrap_err(),
        Error::Egl(EglCallError::QueryString)
    );
    assert_eq!(
        query_extensions(&mut mock).unwrap_err(),
        Error::Egl(EglCallError::QueryString)
    );
}

#[test]
fn invalid_text_reports_distinct_decoding_error() {
    let mut mock = MockBackend::new();
    mock.vendor = vec![0xFF, 0xFE];
    let display = ready(&mut mock);
    assert_eq!(
        display.query_vendor(&mut mock).unwrap_err(),
        Error::NonUtf8StringReceived
    );
}

#[test]
fn truncated_multibyte_text_reports_decoding_error() {
    let mut mock = MockBackend::new();
    mock.extensions = vec![0xE2, 0x82];
    let display = ready(&mut mock);
    assert_eq!(
        display.query_extensions(&mut mock).unwrap_err(),
        Error::NonUtf8StringReceived
    );
}

#[test]
fn failing_get_configs_reports_get_configs() {
    let mut mock = failing(EglCallError::GetConfigs);
    let display = ready(&mut mock);
    assert_eq!(
        display.get_configs(&mut mock).unwrap_err(),
        Error::Egl(EglCallError::GetConfigs)
    );
}

#[test]
fn failing_get_config_attrib_reports_get_config_attrib() {
    let mut mock = MockBackend::new();
    mock.configs.push(MockConfig::new(1));
    let display = ready(&mut mock);
    let configs = display.get_configs(&mut mock).expect("enumeration");
    mock.fail.push(EglCallError::GetConfigAttrib);
    assert_eq!(
        configs[0].red_size(&mut mock).unwrap_err(),
        Error::Egl(EglCallError::GetConfigAttrib)
    );
}

#[test]
fn failing_create_window_surface_reports_its_tag() {
    let mut mock = failing(EglCallError::CreateWindowSurface);
    let display = ready(&mut mock);
    let configs = display.get_configs(&mut mock).expect("enumeration");
    assert_eq!(
        display.create_window_surface(&mut mock, configs[0], 0x77).unwrap_err(),
        Error::Egl(EglCallError::CreateWindowSurface)
    );
}

#[test]
fn failing_create_pbuffer_surface_reports_its_tag() {
    let mut mock = failing(EglCallError::CreatePbufferSurface);
    let display = ready(&mut mock);
    let configs = display.get_configs(&mut mock).expect("enumeration");
    assert_eq!(
        display.create_pbuffer_surface(&mut mock, configs[0], 64, 64).unwrap_err(),
        Error::Egl(EglCallError::CreatePbufferSurface)
    );
}

#[test]
fn failing_create_context_reports_create_context() {
    let mut mock = failing(EglCallError::CreateContext);
    let display = ready(&mut mock);
    let configs = display.get_configs(&mut mock).expect("enumeration");
    assert_eq!(
        display.create_context(&mut mock, configs[0]).unwrap_err(),
        Error::Egl(EglCallError::CreateContext)
    );
    assert_eq!(
        display
            .create_context_with_client_version(
                &mut mock,
                configs[0],
                egli::ContextClientVersion::OpenGlEs2,
            )
            .unwrap_err(),
        Error::Egl(EglCallError::CreateContext)
    );
}

#[test]
fn failing_make_current_reports_make_current() {
    let mut mock = failing(EglCallError::MakeCurrent);
    let display = ready(&mut mock);
    let configs = display.get_configs(&mut mock).expect("enumeration");
    let surface = display.create_window_surface(&mut mock, configs[0], 0x77).expect("surface");
    let context = display.create_context(&mut mock, configs[0]).expect("context");
    assert_eq!(
        display.make_current(&mut mock, &surface, &surface, &context).unwrap_err(),
        Error::Egl(EglCallError::MakeCurrent)
    );
    assert_eq!(
        display.make_not_current(&mut mock).unwrap_err(),
        Error::Egl(EglCallError::MakeCurrent)
    );
}

#[test]
fn failing_swap_buffers_reports_swap_buffers_and_nothing_else() {
    let mut mock = failing(EglCallError::SwapBuffers);
    let display = ready(&mut mock);
    let configs = display.get_configs(&mut mock).expect("enumeration");
    let surface = display.create_window_surface(&mut mock, configs[0], 0x77).expect("surface");
    assert_eq!(
        display.swap_buffers(&mut mock, &surface).unwrap_err(),
        Error::Egl(EglCallError::SwapBuffers)
    );
    // The failure stays with its own operation: others still succeed.
    assert!(display.make_not_current(&mut mock).is_ok());
    assert!(display.initialize(&mut mock).is_ok());
}

#[test]
fn failing_query_surface_reports_query_surface() {
    let mut mock = failing(EglCallError::QuerySurface);
    let display = ready(&mut mock);
    let configs = display.get_configs(&mut mock).expect("enumeration");
    let surface = display.create_window_surface(&mut mock, configs[0], 0x77).expect("surface");
    assert_eq!(
        surface.query_width(&mut mock).unwrap_err(),
        Error::Egl(EglCallError::QuerySurface)
    );
    assert_eq!(
        surface.query_height(&mut mock).unwrap_err(),
        Error::Egl(EglCallError::QuerySurface)
    );
}

#[test]
fn failing_destroy_surface_reports_destroy_surface() {
    let mut mock = failing(EglCallError::DestroySurface);
    let display = ready(&mut mock);
    let configs = display.get_configs(&mut mock).expect("enumeration");
    let surface = display.create_window_surface(&mut mock, configs[0], 0x77).expect("surface");
    assert_eq!(
        surface.destroy(&mut mock).unwrap_err(),
        Error::Egl(EglCallError::DestroySurface)
    );
}

#[test]
fn failing_destroy_context_reports_destroy_context() {
    let mut mock = failing(EglCallError::DestroyContext);
    let display = ready(&mut mock);
    let configs = display.get_configs(&mut mock).expect("enumeration");
    let context = display.create_context(&mut mock, configs[0]).expect("context");
    assert_eq!(
        context.destroy(&mut mock).unwrap_err(),
        Error::Egl(EglCallError::DestroyContext)
    );
}

#[test]
fn failing_terminate_reports_terminate() {
    let mut mock = failing(EglCallError::Terminate);
    let display = ready(&mut mock);
    assert_eq!(
        display.terminate(&mut mock).unwrap_err(),
        Error::Egl(EglCallError::Terminate)
    );
}

#[test]
fn error_conversion_wraps_call_tag() {
    let err: Error = Error::from(EglCallError::SwapBuffers);
    assert_eq!(err, Error::Egl(EglCallError::SwapBuffers));
    assert!(err.is_egl_call(EglCallError::SwapBuffers));
    assert!(!err.is_egl_call(EglCallError::Terminate));
    assert!(!Error::NonUtf8StringReceived.is_egl_call(EglCallError::SwapBuffers));
}
