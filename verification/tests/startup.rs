use gpu_life::frame::Command;
use gpu_life::grid::Grid;
use gpu_life::renderer::Renderer;
use gpu_life::texture::{create_texture, Buffer, Extent, Origin};

#[test]
fn startup_seeds_the_first_texture() {
    let renderer = Renderer::new(4, 2);
    let pattern = vec![1, 0, 0, 1, 0, 1, 1, 0];
    let startup = renderer.start_from(pattern.clone());
    assert_eq!(startup.commands, vec![Command::CopyBufferToTexture { target: Buffer::A }]);
    assert_eq!(startup.pattern, pattern);
    let mut bytes = Vec::new();
    for row in pattern.chunks(4) {
        for cell in row {
            bytes.extend_from_slice(&cell.to_ne_bytes());
        }
        bytes.resize(bytes.len() + 256 - 16, 0);
    }
    assert_eq!(startup.upload.contents.len(), 512);
    assert_eq!(startup.upload.contents, bytes);
    assert_eq!(startup.upload.offset, 0);
    assert_eq!(startup.upload.bytes_per_row, 256);
    assert_eq!(startup.upload.rows_per_image, 2);
    assert_eq!(startup.upload.mip_level, 0);
    assert_eq!(startup.upload.origin, Origin { x: 0, y: 0, z: 0 });
    assert_eq!(startup.upload.extent, Extent { width: 4, height: 2, depth_or_array_layers: 1 });
    assert_eq!(startup.state.current(), Buffer::A);
    assert_eq!(startup.state.texture(Buffer::A), create_texture(4, 2));
    assert_eq!(startup.state.texture(Buffer::B), create_texture(4, 2));
    assert_eq!(startup.state.renderer().width(), 4);
    assert_eq!(startup.state.renderer().height(), 2);
}

#[test]
fn random_startup_fills_the_whole_grid() {
    let renderer = Renderer::new(1280, 720);
    let startup = renderer.start();
    assert_eq!(startup.pattern.len(), 1280 * 720);
    assert!(startup.pattern.iter().all(|&cell| cell <= 1));
    assert_eq!(startup.upload.contents.len(), 4 * 1280 * 720);
    assert_eq!(startup.upload.bytes_per_row, 5120);
    assert_eq!(startup.upload.rows_per_image, 720);
    assert_eq!(startup.commands, vec![Command::CopyBufferToTexture { target: Buffer::A }]);
    assert_eq!(startup.state.current(), Buffer::A);
    let staged: Vec<u32> = startup
        .upload
        .contents
        .chunks(4)
        .map(|word| u32::from_ne_bytes([word[0], word[1], word[2], word[3]]))
        .collect();
    assert_eq!(staged, startup.pattern);
}

#[test]
fn random_startup_on_an_unaligned_grid_stages_every_cell_at_its_pitch() {
    let renderer = Renderer::new(6, 6);
    let startup = renderer.start();
    assert_eq!(startup.pattern.len(), 36);
    assert_eq!(startup.upload.bytes_per_row, 256);
    assert_eq!(startup.upload.contents.len(), 6 * 256);
    for y in 0..6usize {
        for x in 0..6usize {
            let at = y * 256 + 4 * x;
            let word = &startup.upload.contents[at..at + 4];
            let cell = u32::from_ne_bytes([word[0], word[1], word[2], word[3]]);
            assert_eq!(cell, startup.pattern[y * 6 + x]);
            assert!(cell <= 1);
        }
    }
}

#[test]
fn random_startups_differ() {
    let renderer = Renderer::new(64, 64);
    assert_ne!(renderer.start().pattern, renderer.start().pattern);
}

#[test]
fn seeded_pattern_is_a_generation_of_the_grid() {
    let renderer = Renderer::new(32, 16);
    let startup = renderer.start();
    let first = Grid::from_cells(32, 16, startup.pattern).unwrap();
    let second = first.step();
    assert_eq!(second.width(), 32);
    assert_eq!(second.height(), 16);
    assert!(second.cells().iter().all(|&cell| cell <= 1));
}
