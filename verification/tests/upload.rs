use gpu_life::bytes::words_to_bytes;
use gpu_life::renderer::Renderer;
use gpu_life::texture::{Extent, Origin};

fn native_bytes(words: &[u32]) -> Vec<u8> {
    let mut bytes = Vec::new();
    for word in words {
        bytes.extend_from_slice(&word.to_ne_bytes());
    }
    bytes
}

#[test]
fn words_become_their_bytes_in_memory() {
    let words = [1u32, 0, 0x0102_0304, u32::MAX, 0x8000_0000];
    let bytes = words_to_bytes(&words);
    assert_eq!(bytes.len(), 20);
    assert_eq!(bytes, native_bytes(&words));
}

#[test]
fn words_keep_their_order_and_their_byte_order() {
    let bytes = words_to_bytes(&[0x0102_0304, 0x0506_0708]);
    let little = vec![4u8, 3, 2, 1, 8, 7, 6, 5];
    let big = vec![1u8, 2, 3, 4, 5, 6, 7, 8];
    assert!(bytes == little || bytes == big);
    let least_significant_first = 1u16.to_ne_bytes()[0] == 1;
    if least_significant_first {
        assert_eq!(bytes, little);
    } else {
        assert_eq!(bytes, big);
    }
}

#[test]
fn no_words_make_no_bytes() {
    assert_eq!(words_to_bytes(&[]), Vec::<u8>::new());
}

fn staged_rows(data: &[u32], width: usize, pitch: usize) -> Vec<u8> {
    let mut bytes = Vec::new();
    for row in data.chunks(width) {
        bytes.extend_from_slice(&native_bytes(row));
        bytes.resize(bytes.len() + pitch - 4 * width, 0);
    }
    bytes
}

fn cell_read_back(contents: &[u8], pitch: usize, x: usize, y: usize) -> u32 {
    let at = y * pitch + 4 * x;
    u32::from_ne_bytes([contents[at], contents[at + 1], contents[at + 2], contents[at + 3]])
}

#[test]
fn upload_of_an_aligned_grid() {
    let renderer = Renderer::new(64, 2);
    let mut data = vec![0u32; 128];
    data[0] = 1;
    data[65] = 1;
    data[127] = 1;
    let upload = renderer.init_texture(&data);
    assert_eq!(upload.contents, native_bytes(&data));
    assert_eq!(upload.contents.len(), 512);
    assert_eq!(upload.offset, 0);
    assert_eq!(upload.bytes_per_row, 256);
    assert_eq!(upload.rows_per_image, 2);
    assert_eq!(upload.mip_level, 0);
    assert_eq!(upload.origin, Origin { x: 0, y: 0, z: 0 });
    assert_eq!(upload.extent, Extent { width: 64, height: 2, depth_or_array_layers: 1 });
}

#[test]
fn upload_of_the_default_grid() {
    let renderer = Renderer::new(1280, 720);
    let data: Vec<u32> = (0..1280 * 720).map(|i| (i % 7 == 0) as u32).collect();
    let upload = renderer.init_texture(&data);
    assert_eq!(upload.contents, native_bytes(&data));
    assert_eq!(upload.contents.len(), 4 * 1280 * 720);
    assert_eq!(upload.bytes_per_row, 5120);
    assert_eq!(upload.rows_per_image, 720);
    assert_eq!(upload.extent, Extent { width: 1280, height: 720, depth_or_array_layers: 1 });
}

#[test]
fn upload_pads_each_row_to_the_pitch() {
    let renderer = Renderer::new(6, 6);
    let data: Vec<u32> = (0..36).map(|i| i % 2).collect();
    let upload = renderer.init_texture(&data);
    assert_eq!(upload.bytes_per_row, 256);
    assert_eq!(upload.rows_per_image, 6);
    assert_eq!(upload.contents.len(), 6 * 256);
    assert_eq!(upload.contents, staged_rows(&data, 6, 256));
    assert_eq!(upload.extent, Extent { width: 6, height: 6, depth_or_array_layers: 1 });
    for y in 0..6 {
        assert_eq!(&upload.contents[y * 256..y * 256 + 24], &native_bytes(&data[y * 6..y * 6 + 6])[..]);
        assert!(upload.contents[y * 256 + 24..(y + 1) * 256].iter().all(|&byte| byte == 0));
    }
}

#[test]
fn upload_of_a_four_by_four_grid_brings_every_cell_to_its_place() {
    let renderer = Renderer::new(4, 4);
    let data = [0u32, 0, 0, 0, 1, 1, 1, 1, 0, 0, 0, 0, 0, 0, 0, 0];
    let upload = renderer.init_texture(&data);
    assert_eq!(upload.bytes_per_row, 256);
    assert_eq!(upload.contents.len(), 1024);
    assert!(upload.offset as usize + 3 * 256 + 16 <= upload.contents.len());
    for y in 0..4 {
        for x in 0..4 {
            let expected = if y == 1 { 1 } else { 0 };
            assert_eq!(cell_read_back(&upload.contents, 256, x, y), expected);
            assert_eq!(cell_read_back(&upload.contents, 256, x, y), data[y * 4 + x]);
        }
    }
}

#[test]
fn upload_is_read_back_cell_for_cell_on_every_small_grid() {
    for width in 1..70u32 {
        for height in [1u32, 2, 3, 5] {
            let renderer = Renderer::new(width, height);
            let data: Vec<u32> = (0..width * height).map(|i| i.wrapping_mul(2_654_435_761)).collect();
            let upload = renderer.init_texture(&data);
            let pitch = upload.bytes_per_row as usize;
            assert_eq!(pitch % 256, 0);
            assert!(pitch >= 4 * width as usize);
            assert_eq!(upload.contents.len(), height as usize * pitch);
            assert_eq!(upload.contents, staged_rows(&data, width as usize, pitch));
            for y in 0..height as usize {
                for x in 0..width as usize {
                    assert_eq!(
                        cell_read_back(&upload.contents, pitch, x, y),
                        data[y * width as usize + x]
                    );
                }
            }
        }
    }
}

#[test]
fn upload_of_a_single_row_is_padded_too() {
    let renderer = Renderer::new(3, 1);
    let upload = renderer.init_texture(&[7, 8, 9]);
    assert_eq!(upload.contents, staged_rows(&[7, 8, 9], 3, 256));
    assert_eq!(upload.contents.len(), 256);
    assert_eq!(upload.extent, Extent { width: 3, height: 1, depth_or_array_layers: 1 });
}
