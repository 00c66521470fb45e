use gpu_life::renderer::Renderer;

#[test]
fn renderer_keeps_the_configured_size() {
    let renderer = Renderer::new(1280, 720);
    assert_eq!(renderer.width(), 1280);
    assert_eq!(renderer.height(), 720);
    assert_eq!(renderer.cell_count(), 921_600);
}

#[test]
fn renderer_of_a_single_cell() {
    let renderer = Renderer::new(1, 1);
    assert_eq!(renderer.width(), 1);
    assert_eq!(renderer.height(), 1);
    assert_eq!(renderer.cell_count(), 1);
}

#[test]
fn supported_sizes() {
    assert!(Renderer::supports(1, 1));
    assert!(Renderer::supports(1280, 720));
    assert!(Renderer::supports(65_535, 65_537));
    assert!(Renderer::supports(1, u32::MAX));
    assert!(Renderer::supports(1_073_741_760, 1));
    assert!(Renderer::supports(1_073_741_760, 3));
}

#[test]
fn empty_grids_are_not_supported() {
    assert!(!Renderer::supports(0, 0));
    assert!(!Renderer::supports(0, 720));
    assert!(!Renderer::supports(1280, 0));
}

#[test]
fn grids_with_too_many_cells_are_not_supported() {
    assert!(!Renderer::supports(65_536, 65_536));
    assert!(!Renderer::supports(2, u32::MAX));
    assert!(!Renderer::supports(1_073_741_760, 5));
}

#[test]
fn grids_with_rows_too_wide_to_pitch_are_not_supported() {
    assert!(!Renderer::supports(1_073_741_761, 1));
    assert!(!Renderer::supports(u32::MAX, 1));
}

#[test]
fn renderer_can_be_copied_and_printed() {
    let renderer = Renderer::new(6, 4);
    let copy = renderer;
    assert_eq!(copy.width(), renderer.width());
    assert_eq!(copy.height(), renderer.height());
    let text = format!("{:?}", renderer);
    assert!(text.contains("Renderer"));
    assert!(text.contains("6"));
    assert!(text.contains("4"));
}
