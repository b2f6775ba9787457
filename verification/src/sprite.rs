//! Sprite rows: the eight pixels that a byte stands for.

use vstd::prelude::*;
use crate::screen::{Buffer, PIXEL_ON};

verus! {

/// The weight of the bit that stands for `column`, column 0 being the
/// leftmost pixel and the most significant bit.
pub open spec fn place_value(column: int) -> int {
    if column == 0 {
        128
    } else if column == 1 {
        64
    } else if column == 2 {
        32
    } else if column == 3 {
        16
    } else if column == 4 {
        8
    } else if column == 5 {
        4
    } else if column == 6 {
        2
    } else {
        1
    }
}

/// The bit of `byte` that stands for `column`: 1 or 0.
pub open spec fn bit_of(byte: u8, column: int) -> u8 {
    (byte as int / place_value(column) % 2) as u8
}

/// The pixels of a sprite whose rows are `bytes`, in row-major order, eight
/// to a row.
pub open spec fn sprite_bits(bytes: Seq<u8>) -> Seq<bool> {
    Seq::new(8 * bytes.len(), |k: int| bit_of(bytes[k / 8], k % 8) == 1)
}

/// Shifting a byte right until the bit of a column is the lowest one, and
/// masking the rest, gives the bit of that column.
proof fn lemma_shifted_bits(byte: u8)
    ensures
        forall|column: u8| column < 8 ==> #[trigger] ((byte >> (7 - column) as u8) & 1) == bit_of(byte, column as int),
{
    assert((byte >> 7u8) & 1 == byte / 128 % 2 && (byte >> 6u8) & 1 == byte / 64 % 2 && (byte >> 5u8) & 1 == byte
        / 32 % 2 && (byte >> 4u8) & 1 == byte / 16 % 2 && (byte >> 3u8) & 1 == byte / 8 % 2 && (byte >> 2u8) & 1
        == byte / 4 % 2 && (byte >> 1u8) & 1 == byte / 2 % 2 && (byte >> 0u8) & 1 == byte / 1 % 2) by (bit_vector);
}

/// The eight bits of a byte, most significant first, each as 0 or 1.
pub fn binary_to_vec(binary: u8) -> (values: Vec<u8>)
    ensures
        values@.len() == 8,
        forall|column: int| 0 <= column < 8 ==> #[trigger] values@[column] == bit_of(binary, column),
{
    let mut values: Vec<u8> = Vec::new();
    let mut rest = binary;
    let mut column: u8 = 0;
    assert(binary == binary << 0u8) by (bit_vector);
    while column < 8
        invariant
            column <= 8,
            values@.len() == column,
            column < 8 ==> rest == binary << column,
            forall|k: int| 0 <= k < column ==> values@[k] == bit_of(binary, k),
        decreases 8 - column,
    {
        let bit = (rest & 0b10000000) >> 7;
        proof {
            assert(bit == (binary >> (7 - column) as u8) & 1) by (bit_vector)
                requires
                    column < 8,
                    rest == binary << column,
                    bit == (rest & 0b10000000) >> 7,
            ;
            assert(column < 7 ==> rest << 1 == binary << (column + 1) as u8) by (bit_vector)
                requires
                    column < 8,
                    rest == binary << column,
            ;
            lemma_shifted_bits(binary);
        }
        values.push(bit);
        rest = rest << 1;
        column += 1;
    }
    values
}

/// The sprite whose rows are the bytes of `binary`: eight pixels wide, one
/// row to a byte, a set bit giving a lit pixel.
pub fn binary_to_buffer(binary: Vec<u8>) -> (buffer: Buffer)
    requires
        8 * binary@.len() <= usize::MAX,
    ensures
        buffer.wf(),
        buffer.spec_width() == 8,
        buffer.spec_height() == binary@.len(),
        buffer.spec_is_dirty(),
        buffer@ == sprite_bits(binary@),
{
    let mut pixels: Vec<u32> = Vec::new();
    let height = binary.len();
    let mut row: usize = 0;
    while row < height
        invariant
            row <= height,
            height == binary@.len(),
            8 * height <= usize::MAX,
            pixels@.len() == 8 * row,
            forall|k: int| 0 <= k < pixels@.len() ==> pixels@[k] == 0 || pixels@[k] == PIXEL_ON,
            forall|k: int| 0 <= k < pixels@.len() ==> (pixels@[k] != 0) == (bit_of(binary@[k / 8], k % 8) == 1),
        decreases height - row,
    {
        let bits = binary_to_vec(binary[row]);
        let mut column: usize = 0;
        while column < 8
            invariant
                column <= 8,
                row < height,
                height == binary@.len(),
                8 * height <= usize::MAX,
                bits@.len() == 8,
                forall|c: int| 0 <= c < 8 ==> bits@[c] == bit_of(binary@[row as int], c),
                pixels@.len() == 8 * row + column,
                forall|k: int| 0 <= k < pixels@.len() ==> pixels@[k] == 0 || pixels@[k] == PIXEL_ON,
                forall|k: int| 0 <= k < pixels@.len() ==> (pixels@[k] != 0) == (bit_of(binary@[k / 8], k % 8) == 1),
            decreases 8 - column,
        {
            let pixel = bits[column] as u32 * PIXEL_ON;
            pixels.push(pixel);
            column += 1;
        }
        row += 1;
    }
    let buffer = Buffer::new(8, height, Some(pixels));
    assert(buffer@ =~= sprite_bits(binary@));
    buffer
}

} // verus!
