use vstd::prelude::*;

verus! {

/// The RGBA bytes of one row of palette indices.
pub open spec fn row_rgba(row: Seq<u8>, palette: Seq<[u8; 4]>) -> Seq<u8>
    decreases row.len(),
{
    if row.len() == 0 {
        Seq::<u8>::empty()
    } else {
        row_rgba(row.drop_last(), palette) + palette[row.last() as int]@
    }
}

/// The RGBA bytes of rows of palette indices, row after row.
pub open spec fn rows_rgba(rows: Seq<Seq<u8>>, palette: Seq<[u8; 4]>) -> Seq<u8>
    decreases rows.len(),
{
    if rows.len() == 0 {
        Seq::<u8>::empty()
    } else {
        rows_rgba(rows.drop_last(), palette) + row_rgba(rows.last(), palette)
    }
}

/// The rows of a sprite as sequences.
pub open spec fn sprite_rows<const W: usize, const H: usize>(sprite: [[u8; W]; H]) -> Seq<Seq<u8>> {
    sprite@.map_values(|row: [u8; W]| row@)
}

/// Every palette index of the sprite names a palette entry.
pub open spec fn indices_in_palette<const W: usize, const H: usize>(
    sprite: [[u8; W]; H],
    palette: Seq<[u8; 4]>,
) -> bool {
    forall|r: int, c: int| 0 <= r < H && 0 <= c < W ==> (#[trigger] sprite@[r]@[c]) < palette.len()
}

/// Expands a sprite of palette indices into the RGBA texels of a
/// `W` by `H` texture, row by row.
pub fn sprite_rgba<const W: usize, const H: usize>(sprite: &[[u8; W]; H], palette: &[[u8; 4]]) -> (data: Vec<u8>)
    requires
        indices_in_palette(*sprite, palette@),
    ensures
        data@ == rows_rgba(sprite_rows(*sprite), palette@),
{
    let mut data: Vec<u8> = Vec::new();
    let mut r: usize = 0;
    while r < H
        invariant
            r <= H,
            indices_in_palette(*sprite, palette@),
            data@ == rows_rgba(sprite_rows(*sprite).take(r as int), palette@),
        decreases H - r,
    {
        let row: [u8; W] = sprite[r];
        let ghost before = data@;
        let mut c: usize = 0;
        while c < W
            invariant
                r < H,
                c <= W,
                row == sprite@[r as int],
                indices_in_palette(*sprite, palette@),
                data@ == before + row_rgba(row@.take(c as int), palette@),
            decreases W - c,
        {
            let px: u8 = row[c];
            assert(sprite@[r as int]@[c as int] < palette@.len());
            let color: [u8; 4] = palette[px as usize];
            data.push(color[0]);
            data.push(color[1]);
            data.push(color[2]);
            data.push(color[3]);
            assert(row@.take(c + 1).drop_last() =~= row@.take(c as int));
            assert(color@ =~= seq![color[0], color[1], color[2], color[3]]);
            assert(data@ =~= before + row_rgba(row@.take(c + 1), palette@));
            c = c + 1;
        }
        assert(row@.take(W as int) =~= row@);
        assert(sprite_rows(*sprite).take(r + 1).drop_last() =~= sprite_rows(*sprite).take(r as int));
        r = r + 1;
    }
    assert(sprite_rows(*sprite).take(H as int) =~= sprite_rows(*sprite));
    data
}

/// Each index of a row becomes the four bytes of its palette entry, in order.
pub proof fn lemma_row_rgba_texels(row: Seq<u8>, palette: Seq<[u8; 4]>)
    requires
        forall|c: int| 0 <= c < row.len() ==> (#[trigger] row[c]) < palette.len(),
    ensures
        row_rgba(row, palette).len() == 4 * row.len(),
        forall|c: int, k: int|
            0 <= c < row.len() && 0 <= k < 4 ==> #[trigger] row_rgba(row, palette)[4 * c + k]
                == palette[row[c] as int][k],
    decreases row.len(),
{
    if row.len() > 0 {
        let init = row.drop_last();
        lemma_row_rgba_texels(init, palette);
        let n = row.len() - 1;
        assert forall|c: int, k: int| 0 <= c < row.len() && 0 <= k < 4 implies #[trigger] row_rgba(
            row,
            palette,
        )[4 * c + k] == palette[row[c] as int][k] by {
            if c < n {
                assert(init[c] == row[c]);
            }
        }
    }
}

/// Row `r` of the texels holds the bytes of the sprite's row `r`: the texel
/// at row `r` and column `c` of a sprite `w` wide starts at byte
/// `4 * (r * w + c)`.
pub proof fn lemma_rows_rgba_texels(rows: Seq<Seq<u8>>, palette: Seq<[u8; 4]>, w: nat)
    requires
        forall|r: int| 0 <= r < rows.len() ==> (#[trigger] rows[r]).len() == w,
        forall|r: int, c: int| 0 <= r < rows.len() && 0 <= c < w ==> (#[trigger] rows[r][c]) < palette.len(),
    ensures
        rows_rgba(rows, palette).len() == 4 * w * rows.len(),
        forall|r: int, c: int, k: int|
            0 <= r < rows.len() && 0 <= c < w && 0 <= k < 4 ==> #[trigger] rows_rgba(rows, palette)[4
                * (r * w + c) + k] == palette[rows[r][c] as int][k],
    decreases rows.len(),
{
    if rows.len() > 0 {
        let init = rows.drop_last();
        let n: int = rows.len() - 1;
        let last = rows.last();
        lemma_rows_rgba_texels(init, palette, w);
        assert(last == rows[n]);
        lemma_row_rgba_texels(last, palette);
        assert(4 * w * n + 4 * w == 4 * w * rows.len()) by (nonlinear_arith)
            requires n + 1 == rows.len();
        assert forall|r: int, c: int, k: int|
            0 <= r < rows.len() && 0 <= c < w && 0 <= k < 4 implies #[trigger] rows_rgba(rows, palette)[4
                * (r * w + c) + k] == palette[rows[r][c] as int][k] by {
            if r < n {
                assert(init[r] == rows[r]);
                assert(4 * (r * w + c) + k < 4 * w * n) by (nonlinear_arith)
                    requires 0 <= r < n, 0 <= c < w, 0 <= k < 4;
            } else {
                assert(4 * (r * w + c) + k == 4 * w * n + (4 * c + k)) by (nonlinear_arith)
                    requires r == n;
            }
        }
    }
}

/// The texels of a sprite: four bytes per pixel, `4 * W * H` in all, and the
/// pixel at row `r`, column `c` is the palette entry that the sprite names
/// there, starting at byte `4 * (r * W + c)`.
pub proof fn lemma_sprite_rgba_layout<const W: usize, const H: usize>(
    sprite: [[u8; W]; H],
    palette: Seq<[u8; 4]>,
    r: int,
    c: int,
    k: int,
)
    requires
        indices_in_palette(sprite, palette),
        0 <= r < H,
        0 <= c < W,
        0 <= k < 4,
    ensures
        rows_rgba(sprite_rows(sprite), palette).len() == 4 * W * H,
        rows_rgba(sprite_rows(sprite), palette)[4 * (r * W + c) + k] == palette[sprite@[r]@[c] as int][k],
{
    let rows = sprite_rows(sprite);
    assert forall|i: int, j: int| 0 <= i < rows.len() && 0 <= j < W implies (#[trigger] rows[i][j])
        < palette.len() by {
        assert(rows[i] == sprite@[i]@);
        assert(sprite@[i]@[j] < palette.len());
    }
    lemma_rows_rgba_texels(rows, palette, W as nat);
    assert(rows[r] == sprite@[r]@);
}

/// A size in physical pixels.
#[derive(Clone, Copy, Debug, PartialEq, Eq, Structural)]
pub struct PhysicalSize {
    pub width: u32,
    pub height: u32,
}

/// The window size the renderer knows of, and the size its surface is
/// configured with.
pub struct SurfaceView {
    pub size: PhysicalSize,
    pub config: PhysicalSize,
}

/// A surface dimension: a zero window dimension is configured as one pixel.
pub open spec fn at_least_one(n: u32) -> u32 {
    if n == 0 {
        1
    } else {
        n
    }
}

/// A surface dimension keeps the window's dimension whenever that is not
/// zero, and a zero dimension becomes one pixel; the result is never zero and
/// never exceeds the window's dimension by more than that one pixel.
pub proof fn lemma_at_least_one_keeps_nonzero(n: u32)
    ensures
        n > 0 ==> at_least_one(n) == n,
        n == 0 ==> at_least_one(n) == 1,
        at_least_one(n) >= 1,
        at_least_one(n) >= n,
        at_least_one(n) <= n + 1,
{
}

/// The size bookkeeping of the render surface. The surface is never
/// configured with a zero dimension.
pub struct SurfaceExtent {
    size: PhysicalSize,
    config_width: u32,
    config_height: u32,
}

impl View for SurfaceExtent {
    type V = SurfaceView;

    closed spec fn view(&self) -> SurfaceView {
        SurfaceView {
            size: self.size,
            config: PhysicalSize { width: self.config_width, height: self.config_height },
        }
    }
}

impl SurfaceExtent {
    #[verifier::type_invariant]
    spec fn config_is_nonzero(self) -> bool {
        self.config_width >= 1 && self.config_height >= 1
    }

    /// The extent of a new surface for a window of the given size.
    pub fn new(size: PhysicalSize) -> (r: Self)
        ensures
            r@.size == size,
            r@.config.width == at_least_one(size.width),
            r@.config.height == at_least_one(size.height),
            size.width > 0 ==> r@.config.width == size.width,
            size.height > 0 ==> r@.config.height == size.height,
            size.width == 0 ==> r@.config.width == 1,
            size.height == 0 ==> r@.config.height == 1,
    {
        let config_width: u32 = if size.width == 0 { 1 } else { size.width };
        let config_height: u32 = if size.height == 0 { 1 } else { size.height };
        SurfaceExtent { size, config_width, config_height }
    }

    /// Takes a new window size. A size with a zero dimension is ignored; any
    /// other becomes both the known size and the configured one. Returns
    /// whether the surface must be configured again.
    pub fn resize(&mut self, new_size: PhysicalSize) -> (reconfigure: bool)
        ensures
            reconfigure == (new_size.width > 0 && new_size.height > 0),
            reconfigure ==> final(self)@.size == new_size && final(self)@.config == new_size,
            !reconfigure ==> final(self)@ == old(self)@,
    {
        if new_size.width > 0 && new_size.height > 0 {
            *self = SurfaceExtent { size: new_size, config_width: new_size.width, config_height: new_size.height };
            true
        } else {
            false
        }
    }

    /// The window size last accepted.
    pub fn size(&self) -> (r: PhysicalSize)
        ensures
            r == self@.size,
    {
        self.size
    }

    /// The size the surface is configured with; neither dimension is zero.
    pub fn config_size(&self) -> (r: PhysicalSize)
        ensures
            r == self@.config,
            r.width >= 1,
            r.height >= 1,
    {
        proof {
            use_type_invariant(self);
        }
        PhysicalSize { width: self.config_width, height: self.config_height }
    }
}

} // verus!
