use vstd::prelude::*;
use crate::mipgen::{mip_level_count, spec_mip_level_count};

verus! {

/// Bytes per texel of an RGBA8 image.
pub const TEXEL_SIZE: u32 = 4;

/// Rows `lo..hi` of an image with `stride` bytes per row, from the bottom one up.
pub open spec fn rows_bottom_up(t: Seq<u8>, hi: nat, lo: nat, stride: nat) -> Seq<u8>
    decreases hi - lo,
{
    if hi <= lo {
        Seq::empty()
    } else {
        rows_bottom_up(t, hi, lo + 1, stride) + t.subrange((lo * stride) as int, ((lo + 1) * stride) as int)
    }
}

/// The image upside down: its rows in reverse order.
pub open spec fn flipped_rows(t: Seq<u8>, rows: nat, stride: nat) -> Seq<u8> {
    rows_bottom_up(t, rows, 0, stride)
}

/// Flips an image with `rows` rows of `stride` bytes vertically.
pub fn flip_rows(t: &Vec<u8>, rows: usize, stride: usize) -> (r: Vec<u8>)
    requires
        t@.len() == rows * stride,
    ensures
        r@ == flipped_rows(t@, rows as nat, stride as nat),
{
    let mut out: Vec<u8> = Vec::new();
    let mut lo: usize = rows;
    let n: usize = t.len();
    while lo > 0
        invariant
            lo <= rows,
            n == t@.len(),
            t@.len() == rows * stride,
            out@ == rows_bottom_up(t@, rows as nat, lo as nat, stride as nat),
        decreases lo,
    {
        let row: usize = lo - 1;
        assert(row * stride + stride == lo * stride) by (nonlinear_arith)
            requires
                row + 1 == lo,
        ;
        assert(lo * stride <= rows * stride) by (nonlinear_arith)
            requires
                lo <= rows,
        ;
        assert(row * stride <= lo * stride) by (nonlinear_arith)
            requires
                row <= lo,
        ;
        assert((row + 1) * stride == row * stride + stride) by (nonlinear_arith);
        let base: usize = row * stride;
        let ghost before = out@;
        let mut c: usize = 0;
        while c < stride
            invariant
                c <= stride,
                base + stride <= t@.len(),
                n == t@.len(),
                out@ == before + t@.subrange(base as int, base + c),
            decreases stride - c,
        {
            out.push(t[base + c]);
            c = c + 1;
            assert(out@ =~= before + t@.subrange(base as int, base + c));
        }
        lo = row;
    }
    out
}

/// An RGBA8 texture ready for upload: upside down relative to the decoded image, with
/// its mip chain length and row pitch.
#[derive(Clone, Debug)]
pub struct TextureData {
    pub width: u32,
    pub height: u32,
    pub texels: Vec<u8>,
    pub mip_level_count: u32,
    pub bytes_per_row: u32,
}

/// `d` is the upload form of a `width x height` RGBA8 image with texels `t`.
pub open spec fn spec_texture_data(d: TextureData, width: u32, height: u32, t: Seq<u8>) -> bool {
    &&& d.width == width
    &&& d.height == height
    &&& d.texels@ == flipped_rows(t, height as nat, 4 * width as nat)
    &&& d.mip_level_count == spec_mip_level_count(width as nat, height as nat)
    &&& d.bytes_per_row == 4 * width
}

/// Whether `t` holds exactly the texels of a `width x height` RGBA8 image whose rows
/// fit a 32-bit pitch.
pub open spec fn spec_rgba8_fits(width: u32, height: u32, t: Seq<u8>) -> bool {
    4 * width <= u32::MAX && t.len() == 4 * width * height
}

/// Prepares a decoded RGBA8 image for upload; `None` when the texels do not match the
/// dimensions.
pub fn texture_from_rgba8(width: u32, height: u32, texels: &Vec<u8>) -> (r: Option<TextureData>)
    ensures
        match r {
            Some(d) => spec_rgba8_fits(width, height, texels@) && spec_texture_data(
                d,
                width,
                height,
                texels@,
            ),
            None => !spec_rgba8_fits(width, height, texels@),
        },
{
    if width > u32::MAX / 4 {
        return None;
    }
    let stride: u32 = 4 * width;
    assert(stride as nat * height as nat <= u64::MAX) by (nonlinear_arith)
        requires
            stride <= u32::MAX,
            height <= u32::MAX,
    ;
    let expected: u64 = stride as u64 * height as u64;
    if expected != texels.len() as u64 {
        assert(4 * width * height == stride as nat * height as nat) by (nonlinear_arith)
            requires
                stride == 4 * width,
        ;
        return None;
    }
    assert(4 * width * height == stride as nat * height as nat) by (nonlinear_arith)
        requires
            stride == 4 * width,
    ;
    assert(height as usize == height);
    assert(stride as usize == stride);
    assert(texels@.len() == (height as usize) * (stride as usize)) by (nonlinear_arith)
        requires
            texels@.len() == stride as nat * height as nat,
            height as usize == height,
            stride as usize == stride,
    ;
    let flipped = flip_rows(texels, height as usize, stride as usize);
    Some(
        TextureData {
            width,
            height,
            texels: flipped,
            mip_level_count: mip_level_count(width, height),
            bytes_per_row: stride,
        },
    )
}

} // verus!
