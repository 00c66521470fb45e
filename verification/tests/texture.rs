use gpu_life::texture::{
    create_texture, Buffer, Extent, TexelFormat, TextureDimension, TextureSpec, TextureUsage,
};

#[test]
fn state_texture_description() {
    let texture = create_texture(1280, 720);
    assert_eq!(
        texture,
        TextureSpec {
            size: Extent { width: 1280, height: 720, depth_or_array_layers: 1 },
            dimension: TextureDimension::D2,
            format: TexelFormat::R32Uint,
            view_format: TexelFormat::R32Uint,
            mip_level_count: 1,
            sample_count: 1,
            usage: TextureUsage { copy_dst: true, texture_binding: true, storage_binding: true },
        }
    );
}

#[test]
fn state_texture_is_viewed_in_the_format_it_is_stored_in() {
    let texture = create_texture(6, 4);
    assert_eq!(texture.format, TexelFormat::R32Uint);
    assert_eq!(texture.view_format, texture.format);
    assert_eq!(texture.dimension, TextureDimension::D2);
}

#[test]
fn two_state_textures_of_one_size_are_described_alike() {
    assert_eq!(create_texture(6, 4), create_texture(6, 4));
    assert_ne!(create_texture(6, 4), create_texture(4, 6));
}

#[test]
fn each_buffer_is_the_other_of_the_other() {
    assert_eq!(Buffer::A.other(), Buffer::B);
    assert_eq!(Buffer::B.other(), Buffer::A);
    assert_eq!(Buffer::A.other().other(), Buffer::A);
    assert_eq!(Buffer::B.other().other(), Buffer::B);
    assert_ne!(Buffer::A, Buffer::B);
}
