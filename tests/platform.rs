use ronin::config::WindowMode;
use ronin::platform::{gamma_ramp_average, service_interval, window_request, windowed_resolution, WindowRequest};

#[test]
fn resolution_is_sanitised() {
    assert_eq!(windowed_resolution(1280, 720), (1280, 720));
    assert_eq!(windowed_resolution(0, 0), (1920, 1080));
    assert_eq!(windowed_resolution(799, 599), (1920, 1080));
    assert_eq!(windowed_resolution(800, 600), (800, 600));
    assert_eq!(windowed_resolution(16384, 16384), (16384, 16384));
    assert_eq!(windowed_resolution(16385, 20000), (1920, 1080));
}

#[test]
fn full_screen_needs_a_monitor() {
    assert_eq!(window_request(WindowMode::FullScreen, 1, 1, true), WindowRequest::FullScreen);
    assert_eq!(
        window_request(WindowMode::FullScreen, 1, 1, false),
        WindowRequest::Windowed { width: 1920, height: 1080 }
    );
    assert_eq!(
        window_request(WindowMode::Windowed, 1024, 768, true),
        WindowRequest::Windowed { width: 1024, height: 768 }
    );
}

#[test]
fn gamma_ramp_mean() {
    assert_eq!(gamma_ramp_average(&vec![0, 65535]), 32767);
    assert_eq!(gamma_ramp_average(&vec![10, 20, 31]), 20);
    assert_eq!(gamma_ramp_average(&vec![65535; 256]), 65535);
}

#[test]
fn service_interval_is_clamped() {
    assert_eq!(service_interval(true, 30), None);
    assert_eq!(service_interval(false, 0), Some(1));
    assert_eq!(service_interval(false, 30), Some(30));
    assert_eq!(service_interval(false, 200), Some(60));
}
