//! 2D textures: the vertical flip to the bottom-left texture-coordinate
//! convention, and the upload of a decoded RGBA image to the GPU.
//!
//! Decoding the image file is the unverified shell's job; it hands this
//! module the raw 8-bit RGBA pixels. The flip is the library's own logic,
//! stated and proved byte for byte.

use vstd::prelude::*;
use vstd::arithmetic::div_mod::lemma_fundamental_div_mod_converse;
use crate::commands::GpuCmd;

verus! {

/// The byte of the vertically flipped image that ends up at offset `k`: the
/// same column, from the row mirrored about the image's horizontal centre.
pub open spec fn flip_src(width: u32, height: u32, k: int) -> int {
    let row_bytes = 4 * width as int;
    (height - 1 - k / row_bytes) * row_bytes + k % row_bytes
}

/// `rgba` flipped vertically: row `y` of the result is row `height - 1 - y`
/// of the source.
pub open spec fn flipped_rows(width: u32, height: u32, rgba: Seq<u8>) -> Seq<u8> {
    Seq::new(rgba.len(), |k: int| rgba[flip_src(width, height, k)])
}

/// Flip an 8-bit RGBA image vertically, matching the bottom-left origin of
/// texture coordinates against the top-left origin of decoded images.
pub fn flip_rows(width: u32, height: u32, rgba: &Vec<u8>) -> (r: Vec<u8>)
    requires
        rgba@.len() == 4 * (width as int) * (height as int),
    ensures
        r@ == flipped_rows(width, height, rgba@),
{
    let mut out: Vec<u8> = Vec::new();
    if height == 0 || width == 0 {
        proof {
            assert(rgba@.len() == 0) by (nonlinear_arith)
                requires
                    rgba@.len() == 4 * (width as int) * (height as int),
                    width == 0 || height == 0,
            ;
            assert(flipped_rows(width, height, rgba@) =~= out@);
        }
        return out;
    }
    let len = rgba.len();
    proof {
        assert(4 * (width as int) <= rgba@.len()) by (nonlinear_arith)
            requires
                rgba@.len() == 4 * (width as int) * (height as int),
                height >= 1,
        ;
    }
    let row_bytes: usize = 4 * (width as usize);
    proof {
        assert((height as int) * (row_bytes as int) == rgba@.len()) by (nonlinear_arith)
            requires
                row_bytes == 4 * (width as int),
                rgba@.len() == 4 * (width as int) * (height as int),
        ;
    }
    let mut src_base: usize = len;
    let mut y: u32 = 0;
    while y < height
        invariant
            0 <= y <= height,
            row_bytes == 4 * (width as int),
            width > 0,
            rgba@.len() == 4 * (width as int) * (height as int),
            rgba@.len() == len,
            src_base == (height - y) * (row_bytes as int),
            src_base <= len,
            out@.len() == y * (row_bytes as int),
            forall|k: int|
                0 <= k < out@.len() ==> out@[k] == rgba@[flip_src(width, height, k)],
        decreases height - y,
    {
        proof {
            assert((height - y) * (row_bytes as int) >= 1 * (row_bytes as int)) by (nonlinear_arith)
                requires
                    y < height,
                    row_bytes >= 0,
            ;
        }
        src_base = src_base - row_bytes;
        proof {
            assert(src_base == (height - y - 1) * (row_bytes as int)) by (nonlinear_arith)
                requires
                    src_base == (height - y) * (row_bytes as int) - row_bytes,
            ;
        }
        let mut c: usize = 0;
        while c < row_bytes
            invariant
                0 <= c <= row_bytes,
                0 <= y < height,
                row_bytes == 4 * (width as int),
                width > 0,
                rgba@.len() == 4 * (width as int) * (height as int),
                rgba@.len() == len,
                src_base == (height - y - 1) * (row_bytes as int),
                src_base + row_bytes <= len,
                out@.len() == y * (row_bytes as int) + c,
                forall|k: int|
                    0 <= k < out@.len() ==> out@[k] == rgba@[flip_src(width, height, k)],
            decreases row_bytes - c,
        {
            out.push(rgba[src_base + c]);
            proof {
                let k = out@.len() - 1;
                lemma_fundamental_div_mod_converse(k, row_bytes as int, y as int, c as int);
                assert(flip_src(width, height, k) == src_base + c);
            }
            c = c + 1;
        }
        proof {
            assert((y + 1) * (row_bytes as int) == y * (row_bytes as int) + row_bytes)
                by (nonlinear_arith);
        }
        y = y + 1;
    }
    proof {
        assert(out@.len() == rgba@.len()) by (nonlinear_arith)
            requires
                out@.len() == height * (row_bytes as int),
                row_bytes == 4 * (width as int),
                rgba@.len() == 4 * (width as int) * (height as int),
        ;
        assert(out@ =~= flipped_rows(width, height, rgba@));
    }
    out
}

/// A GPU-owned 2D texture image, created once from decoded pixels and
/// immutable thereafter.
#[derive(Debug)]
pub struct Texture {
    id: u32,
}

/// The exact command sequence that creates one texture under handle `id`:
/// select unit 0, bind the texture, set nearest-neighbour filtering both
/// ways, upload the vertically flipped RGBA image, and generate mipmaps.
pub open spec fn texture_build_cmds(
    id: u32,
    width: u32,
    height: u32,
    rgba: Seq<u8>,
    cmds: Seq<GpuCmd>,
) -> bool {
    &&& cmds.len() == 6
    &&& cmds[0] == (GpuCmd::ActiveTextureUnit { unit: 0 })
    &&& cmds[1] == (GpuCmd::BindTexture2d { texture: id })
    &&& cmds[2] == (GpuCmd::SetMinFilterNearest)
    &&& cmds[3] == (GpuCmd::SetMagFilterNearest)
    &&& cmds[4] matches GpuCmd::UploadTexture2d { width: w, height: h, rgba: p } && w == width
        && h == height && p@ == flipped_rows(width, height, rgba)
    &&& cmds[5] == (GpuCmd::GenerateMipmaps { texture: id })
}

impl Texture {
    /// The GPU handle of this texture.
    pub closed spec fn texture_id(self) -> u32 {
        self.id
    }

    /// Wrap decoded RGBA pixels into a texture under the given (freshly
    /// generated) GPU handle. The pixels arrive in the decoder's top-left
    /// row order; the upload command carries them flipped vertically.
    pub fn new(id: u32, width: u32, height: u32, rgba: &Vec<u8>) -> (r: (Texture, Vec<GpuCmd>))
        requires
            rgba@.len() == 4 * (width as int) * (height as int),
        ensures
            r.0.texture_id() == id,
            texture_build_cmds(id, width, height, rgba@, r.1@),
    {
        let flipped = flip_rows(width, height, rgba);
        let mut cmds: Vec<GpuCmd> = Vec::new();
        cmds.push(GpuCmd::ActiveTextureUnit { unit: 0 });
        cmds.push(GpuCmd::BindTexture2d { texture: id });
        cmds.push(GpuCmd::SetMinFilterNearest);
        cmds.push(GpuCmd::SetMagFilterNearest);
        cmds.push(GpuCmd::UploadTexture2d { width, height, rgba: flipped });
        cmds.push(GpuCmd::GenerateMipmaps { texture: id });
        (Texture { id }, cmds)
    }

    /// Release the texture's GPU handle. Consumes the texture, so no later
    /// bind can name the released image.
    pub fn destroy(self) -> (c: GpuCmd)
        ensures
            c == (GpuCmd::DeleteTexture { texture: self.texture_id() }),
    {
        GpuCmd::DeleteTexture { texture: self.id }
    }

    /// Bind this texture (on the unit it was created for) for subsequent
    /// draws.
    pub fn use_texture(&self) -> (c: GpuCmd)
        ensures
            c == (GpuCmd::BindTexture2d { texture: self.texture_id() }),
    {
        GpuCmd::BindTexture2d { texture: self.id }
    }
}

} // verus!
