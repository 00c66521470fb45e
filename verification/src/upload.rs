//! The one-shot copy that seeds a state texture from a staging buffer.
//!
//! A copy reads the rows of the staging buffer one row pitch apart, and the
//! pitch is a multiple of the copy alignment. The rows are therefore staged
//! at that pitch, each followed by padding up to the next row.

use vstd::prelude::*;
use vstd::arithmetic::div_mod::{lemma_fundamental_div_mod, lemma_fundamental_div_mod_converse};
use crate::bytes::{byte_of, in_order, lemma_word_of_its_bytes, read_word, words_to_bytes};
use crate::grid::Generation;
use crate::layout::{padded_bytes_per_row, row_pitch, BYTES_PER_CELL, ROW_ALIGNMENT};
use crate::renderer::Renderer;
use crate::texture::{Extent, Origin};

verus! {

/// A copy of staged cells into a whole state texture: what the staging
/// buffer holds, how its rows are laid out, and the region that is written.
#[derive(Debug, PartialEq, Eq)]
pub struct TextureUpload {
    /// The contents of the staging buffer.
    pub contents: Vec<u8>,
    /// Where in the staging buffer the first row begins.
    pub offset: u64,
    /// The distance, in bytes, from one row to the next.
    pub bytes_per_row: u32,
    /// The number of rows that make up the image.
    pub rows_per_image: u32,
    /// The mip level that is written.
    pub mip_level: u32,
    /// The corner of the texture at which the region begins.
    pub origin: Origin,
    /// The size of the region.
    pub extent: Extent,
}

/// Byte `i` of a staging buffer that holds `data` in rows of `width` cells,
/// one `pitch` apart: a byte of the cell that lies there, in the byte order
/// that `big` selects, or zero in the padding behind a row.
pub open spec fn staged_byte(data: Seq<u32>, width: int, pitch: int, big: bool, i: int) -> u8 {
    let row = i / pitch;
    let at = i % pitch;
    if at < BYTES_PER_CELL * width {
        byte_of(
            data[row * width + at / (BYTES_PER_CELL as int)],
            if big {
                3 - at % (BYTES_PER_CELL as int)
            } else {
                at % (BYTES_PER_CELL as int)
            },
        )
    } else {
        0
    }
}

/// The staging buffer that holds the `height` rows of `data`, each of
/// `width` cells, one `pitch` apart and padded with zeros.
pub open spec fn staged(data: Seq<u32>, width: int, height: int, pitch: int, big: bool) -> Seq<
    u8,
> {
    Seq::new((height * pitch) as nat, |i: int| staged_byte(data, width, pitch, big, i))
}

/// Whether the copy stays within the staging buffer and keeps to the rules
/// of the device: the region is not empty, it is the whole of mip level
/// zero from the corner, the rows do not overlap, the pitch is a multiple of
/// the copy alignment, the image has all the rows of the region, and the
/// last row ends within the buffer.
pub open spec fn copy_is_valid(upload: TextureUpload) -> bool {
    &&& 0 < upload.extent.width
    &&& 0 < upload.extent.height
    &&& upload.extent.depth_or_array_layers == 1
    &&& upload.mip_level == 0
    &&& upload.origin == (Origin { x: 0, y: 0, z: 0 })
    &&& BYTES_PER_CELL * upload.extent.width <= upload.bytes_per_row
    &&& upload.bytes_per_row % ROW_ALIGNMENT == 0
    &&& upload.extent.height <= upload.rows_per_image
    &&& upload.offset + (upload.extent.height - 1) * upload.bytes_per_row + BYTES_PER_CELL
        * upload.extent.width <= upload.contents@.len()
}

/// What the texture holds once the copy is done, on a machine of the byte
/// order that `big` selects: the cell in column `x` of row `y` is the word
/// that lies `y` pitches and `x` cells behind the offset. `None` where the
/// copy is not valid, so that the device refuses it.
pub open spec fn copied(upload: TextureUpload, big: bool) -> Option<Generation> {
    if copy_is_valid(upload) {
        let width = upload.extent.width as int;
        let height = upload.extent.height as int;
        Some(
            Generation {
                width: width as nat,
                height: height as nat,
                cells: Seq::new(
                    (width * height) as nat,
                    |i: int|
                        read_word(
                            upload.contents@,
                            upload.offset + (i / width) * upload.bytes_per_row + BYTES_PER_CELL * (i
                                % width),
                            big,
                        ),
                ),
            },
        )
    } else {
        None
    }
}

/// Whether `upload` seeds a state texture of `renderer`'s grid with `data`
/// on a machine of the byte order that `big` selects: the rows of `data` are
/// staged one pitch apart in that byte order, the pitch is the least
/// multiple of the copy alignment that holds a row, the region is the whole
/// texture, and the texture holds `data`, row by row, once the copy is done.
pub open spec fn seeds_in_order(
    renderer: Renderer,
    data: Seq<u32>,
    upload: TextureUpload,
    big: bool,
) -> bool {
    &&& upload.contents@ == staged(
        data,
        renderer.width() as int,
        renderer.height() as int,
        row_pitch(renderer.width() as int),
        big,
    )
    &&& upload.offset == 0
    &&& upload.bytes_per_row == row_pitch(renderer.width() as int)
    &&& upload.rows_per_image == renderer.height()
    &&& upload.mip_level == 0
    &&& upload.origin == (Origin { x: 0, y: 0, z: 0 })
    &&& upload.extent == (Extent {
        width: renderer.width(),
        height: renderer.height(),
        depth_or_array_layers: 1,
    })
    &&& copied(upload, big) == Some(
        Generation {
            width: renderer.width() as nat,
            height: renderer.height() as nat,
            cells: data,
        },
    )
}

/// Whether `upload` seeds a state texture of `renderer`'s grid with `data`,
/// in one of the two byte orders that a machine can have, the same for
/// every row.
pub open spec fn seeds_texture(renderer: Renderer, data: Seq<u32>, upload: TextureUpload) -> bool {
    seeds_in_order(renderer, data, upload, false) || seeds_in_order(renderer, data, upload, true)
}

/// Place `k` of row `y` in a buffer of `rows` rows that lie `pitch` apart,
/// and in the rows laid end to end, `row_len` bytes each.
proof fn lemma_staged_place(rows: int, pitch: int, row_len: int, width: int, y: int, k: int)
    by (nonlinear_arith)
    requires
        0 <= y < rows,
        0 <= k <= pitch,
        0 <= row_len <= pitch,
        row_len == 4 * width,
    ensures
        0 <= y * pitch,
        y * pitch + k <= rows * pitch,
        y * pitch + pitch == (y + 1) * pitch,
        y * row_len == 4 * (y * width),
        k < row_len ==> 0 <= y * row_len + k < 4 * (width * rows),
        k < row_len ==> 0 <= y * width + k / 4 < width * rows,
{
}

/// Each row of a staging buffer begins one pitch behind the row before it
/// and holds the memory image of its own cells, in one byte order for all
/// rows; the last row ends within the buffer.
pub proof fn lemma_staged_rows(
    data: Seq<u32>,
    width: int,
    height: int,
    pitch: int,
    big: bool,
    y: int,
)
    requires
        0 < width,
        BYTES_PER_CELL * width <= pitch,
        data.len() == width * height,
        0 <= y < height,
    ensures
        0 <= y * pitch,
        y * pitch + BYTES_PER_CELL * width <= staged(data, width, height, pitch, big).len(),
        0 <= y * width,
        (y + 1) * width <= data.len(),
        staged(data, width, height, pitch, big).subrange(
            y * pitch,
            y * pitch + BYTES_PER_CELL * width,
        ) == in_order(data.subrange(y * width, (y + 1) * width), big),
{
    lemma_staged_place(height, pitch, 4 * width, width, y, 4 * width);
    assert(0 <= y * width && (y + 1) * width <= width * height) by (nonlinear_arith)
        requires
            0 <= y < height,
            0 < width,
    ;
    assert((y + 1) * width == y * width + width) by (nonlinear_arith);
    let bytes = staged(data, width, height, pitch, big).subrange(y * pitch, y * pitch + 4 * width);
    let row = in_order(data.subrange(y * width, (y + 1) * width), big);
    assert forall|j: int| 0 <= j < 4 * width implies bytes[j] == row[j] by {
        lemma_fundamental_div_mod_converse(y * pitch + j, pitch, y, j);
    }
    assert(bytes =~= row);
}

/// Read back at the row pitch, a staging buffer gives each cell of each row
/// the value that was staged for it.
pub proof fn lemma_staged_cells_read_back(
    data: Seq<u32>,
    width: int,
    height: int,
    pitch: int,
    big: bool,
    i: int,
)
    requires
        0 < width,
        0 < height,
        BYTES_PER_CELL * width <= pitch,
        data.len() == width * height,
        0 <= i < width * height,
    ensures
        0 <= i / width < height,
        0 <= i % width < width,
        (i / width) * pitch + BYTES_PER_CELL * (i % width) + BYTES_PER_CELL <= height * pitch,
        read_word(
            staged(data, width, height, pitch, big),
            (i / width) * pitch + BYTES_PER_CELL * (i % width),
            big,
        ) == data[i],
{
    let y = i / width;
    let x = i % width;
    lemma_fundamental_div_mod(i, width);
    assert(width * y == y * width) by (nonlinear_arith);
    assert(0 <= y < height) by (nonlinear_arith)
        requires
            i == y * width + x,
            0 <= x < width,
            0 <= i < width * height,
    ;
    lemma_staged_place(height, pitch, 4 * width, width, y, 4 * x + 4);
    let first = y * pitch + 4 * x;
    let bytes = staged(data, width, height, pitch, big);
    assert forall|j: int| 0 <= j < 4 implies #[trigger] bytes[first + j] == byte_of(
        data[i],
        if big {
            3 - j
        } else {
            j
        },
    ) by {
        lemma_fundamental_div_mod_converse(first + j, pitch, y, 4 * x + j);
    }
    assert(bytes[first + 0] == bytes[first]);
    lemma_word_of_its_bytes(data[i]);
}

impl Renderer {
    /// Stages `data`, one value for each cell and row by row, for the copy
    /// that seeds a state texture of this grid.
    pub fn init_texture(&self, data: &[u32]) -> (upload: TextureUpload)
        requires
            data@.len() == self.width() * self.height(),
        ensures
            seeds_texture(*self, data@, upload),
    {
        let width = self.width();
        let height = self.height();
        let pitch = padded_bytes_per_row(width);
        let packed = words_to_bytes(data);
        let ghost big = packed@ != in_order(data@, false);
        let row_len: usize = (BYTES_PER_CELL * width) as usize;
        let pitch_len: usize = pitch as usize;
        let rows: usize = height as usize;
        let mut contents: Vec<u8> = Vec::new();
        let mut y: usize = 0;
        while y < rows
            invariant
                packed@ == in_order(data@, big),
                packed@.len() == 4 * (width * height),
                data@.len() == width * height,
                row_len == 4 * width,
                row_len <= pitch_len,
                rows == height,
                rows * pitch_len <= usize::MAX,
                y <= rows,
                contents@.len() == y * pitch_len,
                forall|i: int|
                    0 <= i < contents@.len() ==> contents@[i] == staged_byte(
                        data@,
                        width as int,
                        pitch_len as int,
                        big,
                        i,
                    ),
            decreases rows - y,
        {
            let mut k: usize = 0;
            while k < row_len
                invariant
                    packed@ == in_order(data@, big),
                    packed@.len() == 4 * (width * height),
                    data@.len() == width * height,
                    row_len == 4 * width,
                    row_len <= pitch_len,
                    rows == height,
                    rows * pitch_len <= usize::MAX,
                    y < rows,
                    k <= row_len,
                    contents@.len() == y * pitch_len + k,
                    forall|i: int|
                        0 <= i < contents@.len() ==> contents@[i] == staged_byte(
                            data@,
                            width as int,
                            pitch_len as int,
                            big,
                            i,
                        ),
                decreases row_len - k,
            {
                proof {
                    lemma_staged_place(
                        rows as int,
                        pitch_len as int,
                        row_len as int,
                        width as int,
                        y as int,
                        k as int,
                    );
                    lemma_fundamental_div_mod_converse(
                        y * pitch_len + k,
                        pitch_len as int,
                        y as int,
                        k as int,
                    );
                    assert(packed@.len() == packed.len());
                }
                contents.push(packed[y * row_len + k]);
                k += 1;
            }
            while k < pitch_len
                invariant
                    row_len <= pitch_len,
                    row_len == 4 * width,
                    rows * pitch_len <= usize::MAX,
                    y < rows,
                    row_len <= k <= pitch_len,
                    contents@.len() == y * pitch_len + k,
                    forall|i: int|
                        0 <= i < contents@.len() ==> contents@[i] == staged_byte(
                            data@,
                            width as int,
                            pitch_len as int,
                            big,
                            i,
                        ),
                decreases pitch_len - k,
            {
                proof {
                    lemma_staged_place(
                        rows as int,
                        pitch_len as int,
                        row_len as int,
                        width as int,
                        y as int,
                        k as int,
                    );
                    lemma_fundamental_div_mod_converse(
                        y * pitch_len + k,
                        pitch_len as int,
                        y as int,
                        k as int,
                    );
                }
                contents.push(0);
                k += 1;
            }
            proof {
                lemma_staged_place(
                    rows as int,
                    pitch_len as int,
                    row_len as int,
                    width as int,
                    y as int,
                    pitch_len as int,
                );
            }
            y += 1;
        }
        let upload = TextureUpload {
            contents,
            offset: 0,
            bytes_per_row: pitch,
            rows_per_image: height,
            mip_level: 0,
            origin: Origin { x: 0, y: 0, z: 0 },
            extent: Extent { width, height, depth_or_array_layers: 1 },
        };
        proof {
            let w = width as int;
            let h = height as int;
            let p = pitch as int;
            assert(upload.contents@ =~= staged(data@, w, h, p, big));
            lemma_staged_place(h, p, 4 * w, w, h - 1, 4 * w);
            assert(copy_is_valid(upload));
            let read = copied(upload, big).unwrap();
            assert forall|i: int| 0 <= i < w * h implies read.cells[i] == data@[i] by {
                lemma_staged_cells_read_back(data@, w, h, p, big, i);
            }
            assert(read.cells =~= data@);
            assert(seeds_in_order(*self, data@, upload, big));
        }
        upload
    }
}

} // verus!
