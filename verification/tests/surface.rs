use gpu_life::renderer::Renderer;
use gpu_life::surface::{choose_format, SurfaceConfig, FRAME_LATENCY};

#[test]
fn first_colour_correct_format_is_preferred() {
    assert_eq!(choose_format(&[false, true, true]), Some(1));
    assert_eq!(choose_format(&[true, true]), Some(0));
    assert_eq!(choose_format(&[false, false, false, true]), Some(3));
    assert_eq!(choose_format(&[true]), Some(0));
}

#[test]
fn first_format_is_taken_where_none_is_colour_correct() {
    assert_eq!(choose_format(&[false]), Some(0));
    assert_eq!(choose_format(&[false, false, false]), Some(0));
}

#[test]
fn no_format_where_none_is_reported() {
    assert_eq!(choose_format(&[]), None);
}

#[test]
fn surface_is_configured_for_the_grid() {
    let renderer = Renderer::new(1280, 720);
    assert_eq!(
        renderer.configure_surface(&[false, false, true]),
        Some(SurfaceConfig {
            width: 1280,
            height: 720,
            format: 2,
            present_mode: 0,
            alpha_mode: 0,
            desired_maximum_frame_latency: 2,
        })
    );
    assert_eq!(FRAME_LATENCY, 2);
}

#[test]
fn surface_falls_back_to_the_first_format() {
    let renderer = Renderer::new(6, 4);
    let config = renderer.configure_surface(&[false, false]).unwrap();
    assert_eq!(config.format, 0);
    assert_eq!(config.width, 6);
    assert_eq!(config.height, 4);
}

#[test]
fn surface_without_formats_cannot_be_configured() {
    let renderer = Renderer::new(6, 4);
    assert_eq!(renderer.configure_surface(&[]), None);
}
