//! The picture-processing unit: shadow buffers for tile data (video memory
//! 0x8000..0x9FFF) and object-attribute memory (0xFE00..0xFE9F), the
//! LCD-control register, and the decoding of tiles and sprites into colored
//! pixel positions.

use vstd::prelude::*;

verus! {

/// Rightmost pixel column of the screen.
pub const WIDTH: i32 = 160;

/// Bottom pixel row of the screen.
pub const HEIGHT: i32 = 144;

/// Bytes in the tile-data shadow buffer (0x9FFF - 0x8000).
pub const TILE_DATA_LEN: usize = 0x1fff;

/// Bytes in the object-attribute shadow buffer (0xFEA0 - 0xFE00).
pub const OAM_LEN: usize = 0xa0;

/// A presentation color as an (r, g, b) triplet.
#[derive(Clone, Copy, PartialEq, Eq, Structural, Debug)]
pub struct Color {
    pub r: u8,
    pub g: u8,
    pub b: u8,
}

/// The fixed palette: two-bit color index 0..=3 maps to white, light grey,
/// dark grey, black. Indices above 3 never arise from tile decoding.
pub open spec fn spec_palette(index: u8) -> Color {
    if index == 0 {
        Color { r: 255, g: 255, b: 255 }
    } else if index == 1 {
        Color { r: 169, g: 169, b: 169 }
    } else if index == 2 {
        Color { r: 105, g: 105, b: 105 }
    } else {
        Color { r: 0, g: 0, b: 0 }
    }
}

/// The color that a tile's two-bit pixel index is shown as.
pub fn palette_color(index: u8) -> (c: Color)
    ensures
        c == spec_palette(index),
{
    if index == 0 {
        Color { r: 255, g: 255, b: 255 }
    } else if index == 1 {
        Color { r: 169, g: 169, b: 169 }
    } else if index == 2 {
        Color { r: 105, g: 105, b: 105 }
    } else {
        Color { r: 0, g: 0, b: 0 }
    }
}

/// One screen pixel: its coordinates and its color.
#[derive(Clone, Copy, PartialEq, Eq, Structural, Debug)]
pub struct ColorPosition {
    pub y: i32,
    pub x: i32,
    pub color: Color,
}

impl ColorPosition {
    pub fn new(x: i32, y: i32, color: Color) -> (p: ColorPosition)
        ensures
            p == (ColorPosition { y, x, color }),
    {
        ColorPosition { y, x, color }
    }
}

/// An 8x8 grid of colored pixels, stored row-major (index = row * 8 + col).
pub struct Tile {
    pixels: Vec<Color>,
}

impl View for Tile {
    type V = Seq<Color>;

    closed spec fn view(&self) -> Seq<Color> {
        self.pixels@
    }
}

impl Tile {
    /// An all-white tile.
    pub fn new() -> (t: Tile)
        ensures
            t@.len() == 64,
            forall|i: int| 0 <= i < 64 ==> t@[i] == spec_palette(0),
    {
        let mut pixels: Vec<Color> = Vec::new();
        let white = Color { r: 255, g: 255, b: 255 };
        while pixels.len() < 64
            invariant
                pixels@.len() <= 64,
                white == spec_palette(0),
                forall|i: int| 0 <= i < pixels@.len() ==> pixels@[i] == spec_palette(0),
            decreases 64 - pixels@.len(),
        {
            pixels.push(white);
        }
        Tile { pixels }
    }

    /// The pixel at the given row and column.
    pub fn pixel(&self, row: usize, col: usize) -> (c: Color)
        requires
            self@.len() == 64,
            row < 8,
            col < 8,
        ensures
            c == self@[row * 8 + col],
    {
        self.pixels[row * 8 + col]
    }
}

/// The abstract state of the picture unit: the two shadow buffers and the
/// LCD-control register.
#[verifier::ext_equal]
pub ghost struct RendS {
    pub tile: Seq<u8>,
    pub oam: Seq<u8>,
    pub lcdc: u8,
}

/// The buffers have their fixed hardware sizes.
pub open spec fn rend_wf(r: RendS) -> bool {
    &&& r.tile.len() == TILE_DATA_LEN
    &&& r.oam.len() == OAM_LEN
}

/// The picture unit after power-on: zeroed buffers, zero control register.
pub open spec fn rend_init() -> RendS {
    RendS { tile: Seq::new(TILE_DATA_LEN as nat, |i: int| 0u8), oam: Seq::new(
        OAM_LEN as nat,
        |i: int| 0u8,
    ), lcdc: 0u8 }
}

pub struct Renderer {
    tile_data: Vec<u8>,
    oam_data: Vec<u8>,
    lcdc: u8,
}

impl View for Renderer {
    type V = RendS;

    closed spec fn view(&self) -> RendS {
        RendS { tile: self.tile_data@, oam: self.oam_data@, lcdc: self.lcdc }
    }
}

/// A vector of `n` zero bytes.
pub(crate) fn zero_bytes(n: usize) -> (v: Vec<u8>)
    ensures
        v@ == Seq::new(n as nat, |i: int| 0u8),
{
    let mut v: Vec<u8> = Vec::new();
    while v.len() < n
        invariant
            v@.len() <= n,
            forall|i: int| 0 <= i < v@.len() ==> v@[i] == 0u8,
        decreases n - v@.len(),
    {
        v.push(0);
    }
    proof {
        assert(v@ =~= Seq::new(n as nat, |i: int| 0u8));
    }
    v
}

impl Renderer {
    pub fn new() -> (r: Renderer)
        ensures
            r@ == rend_init(),
            rend_wf(r@),
    {
        Renderer { tile_data: zero_bytes(TILE_DATA_LEN), oam_data: zero_bytes(OAM_LEN), lcdc: 0 }
    }

    /// Mirror a write in the video-memory range into the tile shadow buffer.
    pub fn store(&mut self, location: usize, value: u8)
        requires
            rend_wf(old(self)@),
            0x8000 <= location < 0x9fff,
        ensures
            rend_wf(final(self)@),
            final(self)@ == (RendS {
                tile: old(self)@.tile.update(location - 0x8000, value),
                ..old(self)@
            }),
    {
        self.tile_data[location - 0x8000] = value;
    }

    /// Mirror a write in the object-attribute range into the OAM shadow buffer.
    pub fn store_oam(&mut self, location: usize, value: u8)
        requires
            rend_wf(old(self)@),
            0xfe00 <= location < 0xfea0,
        ensures
            rend_wf(final(self)@),
            final(self)@ == (RendS {
                oam: old(self)@.oam.update(location - 0xfe00, value),
                ..old(self)@
            }),
    {
        self.oam_data[location - 0xfe00] = value;
    }

    /// Set the LCD-control register.
    pub fn set_lcdc(&mut self, value: u8)
        ensures
            final(self)@ == (RendS { lcdc: value, ..old(self)@ }),
    {
        self.lcdc = value;
    }

    /// Read from the tile shadow buffer; addresses wrap modulo the buffer
    /// length, so reads just past the video-memory range fold back in.
    pub fn get_byte_from_location(&self, location: usize) -> (b: u8)
        requires
            rend_wf(self@),
            location >= 0x8000,
        ensures
            b == self@.tile[(location - 0x8000) % (TILE_DATA_LEN as int)],
    {
        self.tile_data[(location - 0x8000) % TILE_DATA_LEN]
    }

    /// Background tile map area selector (lcdc bit 3): false is area 0,
    /// true is area 1.
    pub fn get_background_tile_map_area(&self) -> (r: bool)
        ensures
            r == (self@.lcdc & 0x8 == 0x8),
    {
        let num = self.lcdc & 0x8;
        num == 0x8
    }

    /// Background tile data area selector (lcdc bit 4): false is area 0,
    /// true is area 1.
    pub fn get_background_tile_data_area(&self) -> (r: bool)
        ensures
            r == (self@.lcdc & 0x10 == 0x10),
    {
        let num = self.lcdc & 0x10;
        num == 0x10
    }

    /// Object size flag (lcdc bit 2): true is 8x16, false is 8x8.
    pub fn get_object_size(&self) -> (r: bool)
        ensures
            r == (self@.lcdc & 0x4 == 0x4),
    {
        let num = self.lcdc & 0x4;
        num == 0x4
    }

    /// Whether objects are enabled (lcdc bit 1).
    pub fn get_object_enable(&self) -> (r: bool)
        ensures
            r == (self@.lcdc & 0x2 == 0x2),
    {
        let num = self.lcdc & 0x2;
        num == 0x2
    }

    /// Window and background priority (lcdc bit 0).
    pub fn get_window_background_priority(&self) -> (r: bool)
        ensures
            r == (self@.lcdc & 0x1 == 0x1),
    {
        let num = self.lcdc & 0x1;
        num == 0x1
    }

    /// The height of an object under the current object-size flag.
    pub fn get_object_height(&self) -> (h: i32)
        ensures
            h == (if self@.lcdc & 0x4 == 0x4 { 16int } else { 8int }),
    {
        if self.get_object_size() {
            16
        } else {
            8
        }
    }
}

// ---------------------------------------------------------------------------
// Tile decoding. A tile is 16 bytes: each row is a byte pair (lo, hi), and
// pixel column c of that row has the two-bit color index
// ((hi >> (7 - c)) & 1) << 1 | ((lo >> (7 - c)) & 1).
// ---------------------------------------------------------------------------

/// The byte of the tile buffer at an absolute video address, wrapping
/// modulo the buffer length.
pub open spec fn tile_byte(r: RendS, location: int) -> u8 {
    r.tile[(location - 0x8000) % (TILE_DATA_LEN as int)]
}

/// The 16 tile bytes starting at an absolute video address.
pub open spec fn tile_bytes(r: RendS, location: int) -> Seq<u8> {
    Seq::new(16nat, |i: int| tile_byte(r, location + i))
}

/// The two-bit color index of column `col` in the row with bytes (lo, hi).
pub open spec fn pixel_index(lo: u8, hi: u8, col: u8) -> u8 {
    (((hi >> ((7 - col) as u8)) & 1) << 1) | ((lo >> ((7 - col) as u8)) & 1)
}

/// The 64 pixel colors of a 16-byte tile, row-major.
pub open spec fn decode_tile(bytes: Seq<u8>) -> Seq<Color> {
    Seq::new(
        64nat,
        |i: int|
            spec_palette(pixel_index(bytes[2 * (i / 8)], bytes[2 * (i / 8) + 1], (i % 8) as u8)),
    )
}

/// Tile map base: lcdc bit 3 set selects 0x9800, clear selects 0x9C00.
pub open spec fn bg_map_base(lcdc: u8) -> int {
    if lcdc & 0x8 == 0x8 {
        0x9800
    } else {
        0x9c00
    }
}

/// Tile data base: lcdc bit 4 set selects 0x8000, clear selects 0x8800.
pub open spec fn bg_data_base(lcdc: u8) -> int {
    if lcdc & 0x10 == 0x10 {
        0x8000
    } else {
        0x8800
    }
}

/// The 16 tile bytes behind background map entry `i`: the map byte names
/// the tile, whose data lies at index * 16 past the data base.
pub open spec fn bg_tile_bytes(r: RendS, i: int) -> Seq<u8> {
    tile_bytes(r, tile_byte(r, bg_map_base(r.lcdc) + i) * 16 + bg_data_base(r.lcdc))
}

/// The background color of screen pixel (x, y): the map entry of the 8x8
/// cell holding the pixel, decoded at the pixel's offset within the cell.
pub open spec fn bg_pixel(r: RendS, x: int, y: int) -> Color {
    decode_tile(bg_tile_bytes(r, (y / 8) * 32 + x / 8))[(y % 8) * 8 + x % 8]
}

/// The two-bit color index of column `col` in the row with bytes (lo, hi).
fn tile_pixel_index(lo: u8, hi: u8, col: u8) -> (idx: u8)
    requires
        col < 8,
    ensures
        idx == pixel_index(lo, hi, col),
{
    let shift = 7 - col;
    (((hi >> shift) & 1) << 1) | ((lo >> shift) & 1)
}

impl Renderer {
    /// Decode 16 tile bytes into the tile's 64 pixel colors.
    pub fn convert_tile(&self, tile_data: &Vec<u8>) -> (t: Tile)
        requires
            tile_data@.len() == 16,
        ensures
            t@ == decode_tile(tile_data@),
    {
        let mut pixels: Vec<Color> = Vec::new();
        while pixels.len() < 64
            invariant
                tile_data@.len() == 16,
                pixels@.len() <= 64,
                forall|j: int|
                    0 <= j < pixels@.len() ==> pixels@[j] == decode_tile(tile_data@)[j],
            decreases 64 - pixels@.len(),
        {
            let i = pixels.len();
            let row = i / 8;
            let col = (i % 8) as u8;
            let lo = tile_data[2 * row];
            let hi = tile_data[2 * row + 1];
            pixels.push(palette_color(tile_pixel_index(lo, hi, col)));
        }
        proof {
            assert(pixels@ =~= decode_tile(tile_data@));
        }
        Tile { pixels }
    }

    /// The 16 bytes that form one tile, read from the given video address.
    pub fn get_tile(&self, location: usize) -> (bytes: Vec<u8>)
        requires
            rend_wf(self@),
            0x8000 <= location,
            location + 16 <= usize::MAX,
        ensures
            bytes@ == tile_bytes(self@, location as int),
    {
        let mut bytes: Vec<u8> = Vec::new();
        while bytes.len() < 16
            invariant
                rend_wf(self@),
                0x8000 <= location,
                location + 16 <= usize::MAX,
                bytes@.len() <= 16,
                forall|j: int|
                    0 <= j < bytes@.len() ==> bytes@[j] == tile_byte(self@, location + j),
            decreases 16 - bytes@.len(),
        {
            let i = bytes.len();
            bytes.push(self.get_byte_from_location(i + location));
        }
        proof {
            assert(bytes@ =~= tile_bytes(self@, location as int));
        }
        bytes
    }

    /// The decoded tiles of the 0x300 background map entries, row-major in
    /// a 32-tile-wide grid.
    #[verifier::loop_isolation(false)]
    pub fn get_background(&self) -> (bg: Vec<Tile>)
        requires
            rend_wf(self@),
        ensures
            bg@.len() == 0x300,
            forall|i: int|
                0 <= i < 0x300 ==> (#[trigger] bg@[i])@ == decode_tile(bg_tile_bytes(self@, i)),
    {
        let map_area = self.get_background_tile_map_area();
        let data_area = self.get_background_tile_data_area();
        let map_index: usize = if map_area {
            0x9800
        } else {
            0x9c00
        };
        let data_index: usize = if data_area {
            0x8000
        } else {
            0x8800
        };
        let mut background: Vec<Tile> = Vec::new();
        while background.len() < 0x300
            invariant
                background@.len() <= 0x300,
                forall|j: int|
                    0 <= j < background@.len() ==> (#[trigger] background@[j])@ == decode_tile(
                        bg_tile_bytes(self@, j),
                    ),
            decreases 0x300 - background@.len(),
        {
            let i = background.len();
            let tile_number = self.get_byte_from_location(i + map_index) as usize;
            let tile_data = self.get_tile(tile_number * 16 + data_index);
            background.push(self.convert_tile(&tile_data));
        }
        background
    }

    /// The background frame: one entry for every pixel of the screen with
    /// both edges included, in row-major order — exactly
    /// (HEIGHT + 1) * (WIDTH + 1) entries, each carrying its coordinates
    /// and its background color. The sprite layer is computed separately by
    /// `get_sprites_from_screen` and merged by the caller.
    #[verifier::loop_isolation(false)]
    pub fn get_screen(&self) -> (screen: Vec<ColorPosition>)
        requires
            rend_wf(self@),
        ensures
            screen@.len() == (HEIGHT + 1) * (WIDTH + 1),
            forall|i: int|
                0 <= i < screen@.len() ==> #[trigger] screen@[i] == (ColorPosition {
                    y: (i / 161) as i32,
                    x: (i % 161) as i32,
                    color: bg_pixel(self@, i % 161, i / 161),
                }),
    {
        let mut screen: Vec<ColorPosition> = Vec::new();
        let background = self.get_background();
        let mut y: i32 = 0;
        while y <= HEIGHT
            invariant
                0 <= y <= HEIGHT + 1,
                screen@.len() == y * 161,
                forall|i: int|
                    0 <= i < screen@.len() ==> #[trigger] screen@[i] == (ColorPosition {
                        y: (i / 161) as i32,
                        x: (i % 161) as i32,
                        color: bg_pixel(self@, i % 161, i / 161),
                    }),
            decreases HEIGHT + 1 - y,
        {
            let mut x: i32 = 0;
            while x <= WIDTH
                invariant
                    0 <= y <= HEIGHT,
                    0 <= x <= WIDTH + 1,
                    screen@.len() == y * 161 + x,
                    forall|i: int|
                        0 <= i < screen@.len() ==> #[trigger] screen@[i] == (ColorPosition {
                            y: (i / 161) as i32,
                            x: (i % 161) as i32,
                            color: bg_pixel(self@, i % 161, i / 161),
                        }),
                decreases WIDTH + 1 - x,
            {
                let cell = ((y / 8) * 32 + x / 8) as usize;
                let tile = &background[cell];
                let color = tile.pixel((y % 8) as usize, (x % 8) as usize);
                let clr_position = ColorPosition { y, x, color };
                proof {
                    vstd::arithmetic::div_mod::lemma_fundamental_div_mod_converse(
                        y * 161 + x,
                        161,
                        y as int,
                        x as int,
                    );
                }
                screen.push(clr_position);
                x = x + 1;
            }
            y = y + 1;
        }
        screen
    }
}

// ---------------------------------------------------------------------------
// Sprites. Forty object-attribute entries of four bytes each (y, x,
// tile index, flags), offset so that on-screen x = entry x - 8 and
// on-screen y = entry y - 16. In 8x16 mode a sprite covers two consecutive
// tile indices. Flag bit 6 flips the sprite vertically, bit 5 horizontally.
// ---------------------------------------------------------------------------

/// The abstract state of one sprite: on-screen coordinates, the decoded
/// pixels of its tile (and of the following tile, used in 8x16 mode), and
/// its attribute flags.
#[verifier::ext_equal]
pub ghost struct SpriteS {
    pub x: int,
    pub y: int,
    pub tile: Seq<Color>,
    pub tile2: Seq<Color>,
    pub flags: u8,
}

/// A sprite decoded from the object-attribute table: two full tiles and
/// coordinates within the offset ranges the four OAM bytes allow.
pub open spec fn sprite_wf(sp: SpriteS) -> bool {
    &&& sp.tile.len() == 64
    &&& sp.tile2.len() == 64
    &&& -8 <= sp.x <= 247
    &&& -16 <= sp.y <= 239
}

/// Whether the sprite's bounding box contains the screen pixel (x, y).
pub open spec fn sprite_contains(sp: SpriteS, x: int, y: int, tall: bool) -> bool {
    let height = if tall {
        16int
    } else {
        8int
    };
    sp.x <= x < sp.x + 8 && sp.y <= y < sp.y + height
}

/// The sprite's color at screen pixel (x, y): the pixel coordinate within
/// the tile, after applying the flips, looked up in the first or (for the
/// lower half of an 8x16 sprite) the second tile.
pub open spec fn sprite_pixel(sp: SpriteS, x: int, y: int, tall: bool) -> Color {
    let height = if tall {
        16int
    } else {
        8int
    };
    let x_rel = x - sp.x;
    let x_loc = if sp.flags & 0x20 == 0x20 {
        7 - x_rel
    } else {
        x_rel
    };
    let y_rel = y - sp.y;
    let y_loc = if sp.flags & 0x40 == 0x40 {
        height - 1 - y_rel
    } else {
        y_rel
    };
    if y_loc < 8 {
        sp.tile[y_loc * 8 + x_loc]
    } else {
        sp.tile2[(y_loc - 8) * 8 + x_loc]
    }
}

/// The sprite decoded from object-attribute entry `number`.
pub open spec fn oam_sprite(r: RendS, number: int) -> SpriteS {
    let off = number * 4;
    SpriteS {
        y: r.oam[off] - 16,
        x: r.oam[off + 1] - 8,
        tile: decode_tile(tile_bytes(r, r.oam[off + 2] * 16 + 0x8000)),
        tile2: decode_tile(tile_bytes(r, r.oam[off + 2] * 16 + 0x8000 + 16)),
        flags: r.oam[off + 3],
    }
}

/// All forty sprites of the object-attribute table, in table order.
pub open spec fn oam_sprites(r: RendS) -> Seq<SpriteS> {
    Seq::new(40nat, |i: int| oam_sprite(r, i))
}

/// The views of a vector of sprites.
pub open spec fn sprite_views(v: Seq<Sprite>) -> Seq<SpriteS> {
    v.map_values(|sp: Sprite| sp@)
}

/// Insert a sprite into a list sorted by ascending x, after any sprite
/// with the same x (so sorting this way is stable).
pub open spec fn insert_sprite(sorted: Seq<SpriteS>, sp: SpriteS) -> Seq<SpriteS>
    decreases sorted.len(),
{
    if sorted.len() == 0 {
        seq![sp]
    } else if sorted.last().x > sp.x {
        insert_sprite(sorted.drop_last(), sp) + seq![sorted.last()]
    } else {
        sorted + seq![sp]
    }
}

/// A sprite list ordered by ascending on-screen x.
pub open spec fn sorted_by_x(sprites: Seq<SpriteS>) -> bool {
    forall|i: int, j: int| 0 <= i <= j < sprites.len() ==> sprites[i].x <= sprites[j].x
}

/// Stable insertion sort of sprites by ascending on-screen x.
pub open spec fn sort_sprites(sprites: Seq<SpriteS>) -> Seq<SpriteS>
    decreases sprites.len(),
{
    if sprites.len() == 0 {
        Seq::empty()
    } else {
        insert_sprite(sort_sprites(sprites.drop_last()), sprites.last())
    }
}

/// The sprite that wins priority at pixel (x, y), scanning a list sorted
/// by ascending x: the first sprite whose box contains the pixel and whose
/// pixel there is not white; if every containing sprite is white there,
/// the last of them; `None` when no sprite contains the pixel.
pub open spec fn winning_sprite(sprites: Seq<SpriteS>, x: int, y: int, tall: bool) -> Option<
    SpriteS,
>
    decreases sprites.len(),
{
    if sprites.len() == 0 {
        None::<SpriteS>
    } else {
        let prefix = winning_sprite(sprites.drop_last(), x, y, tall);
        let last = sprites.last();
        match prefix {
            Option::Some(p) => {
                if sprite_pixel(p, x, y, tall) != spec_palette(0) {
                    Option::Some(p)
                } else if sprite_contains(last, x, y, tall) {
                    Option::Some(last)
                } else {
                    Option::Some(p)
                }
            },
            Option::None => {
                if sprite_contains(last, x, y, tall) {
                    Option::Some(last)
                } else {
                    None::<SpriteS>
                }
            },
        }
    }
}

/// Whether the sprite's bounding box overlaps scanline `y`.
pub open spec fn sprite_on_line(sp: SpriteS, y: int, tall: bool) -> bool {
    let height = if tall {
        16int
    } else {
        8int
    };
    sp.y <= y < sp.y + height
}

/// The sprites admitted on scanline `y`: the first `cap` of them, in list
/// order, whose bounding boxes overlap the line. The hardware cap is ten
/// sprites per line; sprites past the cap contribute nothing to the line.
pub open spec fn line_sprites(sprites: Seq<SpriteS>, y: int, cap: int, tall: bool) -> Seq<SpriteS>
    decreases sprites.len(),
{
    if sprites.len() == 0 || cap <= 0 {
        Seq::empty()
    } else if sprite_on_line(sprites[0], y, tall) {
        seq![sprites[0]] + line_sprites(sprites.drop_first(), y, cap - 1, tall)
    } else {
        line_sprites(sprites.drop_first(), y, cap, tall)
    }
}

/// The sprite views selected by a list of indices.
pub open spec fn sprites_at(sprites: Seq<Sprite>, indices: Seq<usize>) -> Seq<SpriteS> {
    indices.map_values(|j: usize| sprites[j as int]@)
}

/// One scanline of the sprite layer from column `x` on, over the sprites
/// admitted on that line: pixels covered by no admitted sprite are skipped,
/// and each covered pixel carries the winning sprite's color.
pub open spec fn sprite_line(
    admitted: Seq<SpriteS>,
    y: int,
    x: int,
    tall: bool,
) -> Seq<ColorPosition>
    decreases 161 - x,
{
    if x < 0 || x > 160 {
        Seq::empty()
    } else {
        match winning_sprite(admitted, x, y, tall) {
            Option::None => sprite_line(admitted, y, x + 1, tall),
            Option::Some(w) => seq![
                ColorPosition { y: y as i32, x: x as i32, color: sprite_pixel(w, x, y, tall) },
            ] + sprite_line(admitted, y, x + 1, tall),
        }
    }
}

/// The sprite layer from scanline `y` down: each line is rendered from the
/// ten sprites the hardware cap admits on it.
pub open spec fn sprite_frame(sprites: Seq<SpriteS>, y: int, tall: bool) -> Seq<ColorPosition>
    decreases 145 - y,
{
    if y < 0 || y > 144 {
        Seq::empty()
    } else {
        sprite_line(line_sprites(sprites, y, 10, tall), y, 0, tall) + sprite_frame(
            sprites,
            y + 1,
            tall,
        )
    }
}

pub struct Sprite {
    pub x: i32,
    pub y: i32,
    tile: Tile,
    tile2: Tile,
    pub flags: u8,
}

impl View for Sprite {
    type V = SpriteS;

    closed spec fn view(&self) -> SpriteS {
        SpriteS {
            x: self.x as int,
            y: self.y as int,
            tile: self.tile@,
            tile2: self.tile2@,
            flags: self.flags,
        }
    }
}

impl Sprite {
    /// A sprite from its on-screen coordinates, its two tiles (the second
    /// is used only in 8x16 mode) and its attribute flags.
    pub fn new(x: i32, y: i32, tile: Tile, tile2: Tile, flags: u8) -> (sp: Sprite)
        ensures
            sp@ == (SpriteS { x: x as int, y: y as int, tile: tile@, tile2: tile2@, flags }),
    {
        Sprite { x, y, tile, tile2, flags }
    }

    /// Whether this sprite's bounding box contains the pixel (x, y).
    pub fn compare_bool(&self, x: i32, y: i32, eight_by_sixteen: bool) -> (r: bool)
        requires
            -256 <= self@.x < 256,
            -256 <= self@.y < 256,
        ensures
            r == sprite_contains(self@, x as int, y as int, eight_by_sixteen),
    {
        let y_size: i32 = if eight_by_sixteen {
            16
        } else {
            8
        };
        self.x <= x && self.x + 8 > x && self.y <= y && self.y + y_size > y
    }

    /// Whether this sprite's bounding box overlaps scanline `y`.
    pub fn on_line(&self, y: i32, eight_by_sixteen: bool) -> (r: bool)
        requires
            -256 <= self@.y < 256,
        ensures
            r == sprite_on_line(self@, y as int, eight_by_sixteen),
    {
        let height: i32 = if eight_by_sixteen {
            16
        } else {
            8
        };
        self.y <= y && self.y + height > y
    }

    /// The sprite's color at pixel (x, y), with the flip flags applied.
    pub fn get_pixel(&self, x: i32, y: i32, eight_by_sixteen: bool) -> (c: Color)
        requires
            sprite_wf(self@),
            sprite_contains(self@, x as int, y as int, eight_by_sixteen),
        ensures
            c == sprite_pixel(self@, x as int, y as int, eight_by_sixteen),
    {
        let height: i32 = if eight_by_sixteen {
            16
        } else {
            8
        };
        let x_rel = x - self.x;
        let x_loc = if self.xflip() {
            7 - x_rel
        } else {
            x_rel
        };
        let y_rel = y - self.y;
        let y_loc = if self.yflip() {
            height - 1 - y_rel
        } else {
            y_rel
        };
        if y_loc < 8 {
            self.tile.pixel(y_loc as usize, x_loc as usize)
        } else {
            self.tile2.pixel((y_loc - 8) as usize, x_loc as usize)
        }
    }

    /// Flag bit 7: the sprite sits over background and foreground.
    pub fn over_background_foreground(&self) -> (r: bool)
        ensures
            r == (self@.flags & 0x80 == 0x80),
    {
        (self.flags & 0x80) == 0x80
    }

    /// Flag bit 6: the sprite is flipped vertically.
    pub fn yflip(&self) -> (r: bool)
        ensures
            r == (self@.flags & 0x40 == 0x40),
    {
        (self.flags & 0x40) == 0x40
    }

    /// Flag bit 5: the sprite is flipped horizontally.
    pub fn xflip(&self) -> (r: bool)
        ensures
            r == (self@.flags & 0x20 == 0x20),
    {
        (self.flags & 0x20) == 0x20
    }

    /// Flag bit 4: which object palette the sprite selects.
    pub fn palette_number(&self) -> (r: bool)
        ensures
            r == (self@.flags & 0x10 == 0x10),
    {
        (self.flags & 0x10) == 0x10
    }
}

/// Insert a sprite into a vector sorted by ascending x, keeping sprites
/// with equal x in their existing order.
fn insert_sprite_ex(list: Vec<Sprite>, sp: Sprite) -> (r: Vec<Sprite>)
    requires
        forall|i: int|
            0 <= i < list@.len() ==> sprite_wf(#[trigger] sprite_views(list@)[i]),
        sprite_wf(sp@),
    ensures
        sprite_views(r@) == insert_sprite(sprite_views(list@), sp@),
        r@.len() == list@.len() + 1,
        forall|i: int| 0 <= i < r@.len() ==> sprite_wf(#[trigger] sprite_views(r@)[i]),
    decreases list@.len(),
{
    let ghost l0 = list@;
    let mut work = list;
    if work.len() == 0 {
        work.push(sp);
        proof {
            assert(sprite_views(work@) =~= insert_sprite(sprite_views(l0), sp@));
        }
        work
    } else if work[work.len() - 1].x > sp.x {
        let last = work.pop().unwrap();
        proof {
            assert(sprite_views(work@) =~= sprite_views(l0).drop_last());
            assert(last@ == sprite_views(l0).last());
        }
        let mut rest = insert_sprite_ex(work, sp);
        rest.push(last);
        proof {
            assert(sprite_views(rest@) =~= insert_sprite(sprite_views(l0).drop_last(), sp@)
                + seq![sprite_views(l0).last()]);
        }
        rest
    } else {
        work.push(sp);
        proof {
            assert(sprite_views(work@) =~= sprite_views(l0) + seq![sp@]);
        }
        work
    }
}

impl Renderer {
    /// The sprite decoded from object-attribute entry `number`.
    pub fn get_sprite(&self, number: usize) -> (sp: Sprite)
        requires
            rend_wf(self@),
            number < 40,
        ensures
            sp@ == oam_sprite(self@, number as int),
            sprite_wf(sp@),
    {
        let oam_offset = number * 4;
        let tile_index = self.oam_data[oam_offset + 2] as usize;
        let tile = self.get_tile(tile_index * 16 + 0x8000);
        let tile2 = self.get_tile(tile_index * 16 + 0x8000 + 16);
        let y = self.oam_data[oam_offset] as i32 - 16;
        let x = self.oam_data[oam_offset + 1] as i32 - 8;
        let flags = self.oam_data[oam_offset + 3];
        Sprite::new(x, y, self.convert_tile(&tile), self.convert_tile(&tile2), flags)
    }

    /// All forty sprites, sorted by ascending on-screen x; sprites with
    /// equal x keep their table order.
    #[verifier::loop_isolation(false)]
    pub fn get_all_sprites(&self) -> (sprites: Vec<Sprite>)
        requires
            rend_wf(self@),
        ensures
            sprite_views(sprites@) == sort_sprites(oam_sprites(self@)),
            sprites@.len() == 40,
            forall|i: int|
                0 <= i < sprites@.len() ==> sprite_wf(#[trigger] sprite_views(sprites@)[i]),
    {
        let mut sprites: Vec<Sprite> = Vec::new();
        let mut i: usize = 0;
        while i < 40
            invariant
                i <= 40,
                sprites@.len() == i,
                sprite_views(sprites@) == sort_sprites(oam_sprites(self@).take(i as int)),
                forall|j: int|
                    0 <= j < sprites@.len() ==> sprite_wf(#[trigger] sprite_views(sprites@)[j]),
            decreases 40 - i,
        {
            let sp = self.get_sprite(i);
            sprites = insert_sprite_ex(sprites, sp);
            proof {
                assert(oam_sprites(self@).take(i + 1).drop_last() =~= oam_sprites(self@).take(
                    i as int,
                ));
                assert(oam_sprites(self@).take(i + 1).last() == oam_sprite(self@, i as int));
            }
            i = i + 1;
        }
        proof {
            assert(oam_sprites(self@).take(40) =~= oam_sprites(self@));
        }
        sprites
    }

    /// One frame of the sprite layer, scanline by scanline: the hardware
    /// cap admits the first ten sprites (in x order) whose boxes overlap a
    /// line, and every pixel an admitted sprite covers gets the winning
    /// sprite's color; sprites past the cap contribute nothing.
    #[verifier::loop_isolation(false)]
    pub fn get_sprites_from_screen(&self) -> (screen: Vec<ColorPosition>)
        requires
            rend_wf(self@),
        ensures
            screen@ == sprite_frame(
                sort_sprites(oam_sprites(self@)),
                0,
                self@.lcdc & 0x4 == 0x4,
            ),
    {
        let eight_by_sixteen = self.get_object_size();
        let mut screen: Vec<ColorPosition> = Vec::new();
        let sprites = self.get_all_sprites();
        let ghost views = sprite_views(sprites@);
        let mut y: i32 = 0;
        while y <= HEIGHT
            invariant
                0 <= y <= 145,
                sprite_frame(views, 0, eight_by_sixteen) == screen@ + sprite_frame(
                    views,
                    y as int,
                    eight_by_sixteen,
                ),
            decreases 145 - y,
        {
            let mut admitted: Vec<usize> = Vec::new();
            let mut i: usize = 0;
            proof {
                assert(views.skip(0) =~= views);
                assert(sprites_at(sprites@, Seq::<usize>::empty()) =~= Seq::<SpriteS>::empty());
                assert(Seq::<SpriteS>::empty() + line_sprites(views, y as int, 10, eight_by_sixteen)
                    =~= line_sprites(views, y as int, 10, eight_by_sixteen));
            }
            while i < sprites.len()
                invariant
                    i <= sprites@.len(),
                    admitted@.len() <= 10,
                    forall|k: int| 0 <= k < admitted@.len() ==> admitted@[k] < sprites@.len(),
                    line_sprites(views, y as int, 10, eight_by_sixteen) == sprites_at(
                        sprites@,
                        admitted@,
                    ) + line_sprites(
                        views.skip(i as int),
                        y as int,
                        10 - admitted@.len(),
                        eight_by_sixteen,
                    ),
                decreases sprites@.len() - i,
            {
                proof {
                    assert(views.skip(i as int).drop_first() =~= views.skip(i as int + 1));
                    assert(sprite_views(sprites@)[i as int] == sprites@[i as int]@);
                }
                if admitted.len() < 10 && sprites[i].on_line(y, eight_by_sixteen) {
                    let ghost before = sprites_at(sprites@, admitted@);
                    let ghost rest = line_sprites(
                        views.skip(i as int + 1),
                        y as int,
                        10 - admitted@.len() - 1,
                        eight_by_sixteen,
                    );
                    admitted.push(i);
                    proof {
                        assert(sprites_at(sprites@, admitted@) =~= before + seq![
                            views[i as int],
                        ]);
                        assert(before + (seq![views[i as int]] + rest) =~= sprites_at(
                            sprites@,
                            admitted@,
                        ) + rest);
                    }
                }
                i = i + 1;
            }
            let ghost adm = sprites_at(sprites@, admitted@);
            proof {
                assert(views.skip(views.len() as int) =~= Seq::<SpriteS>::empty());
                assert(adm + Seq::<SpriteS>::empty() =~= adm);
                assert(sprite_frame(views, y as int, eight_by_sixteen) == sprite_line(
                    adm,
                    y as int,
                    0,
                    eight_by_sixteen,
                ) + sprite_frame(views, y as int + 1, eight_by_sixteen));
            }
            let mut x: i32 = 0;
            while x <= WIDTH
                invariant
                    0 <= x <= 161,
                    sprite_frame(views, 0, eight_by_sixteen) == screen@ + sprite_line(
                        adm,
                        y as int,
                        x as int,
                        eight_by_sixteen,
                    ) + sprite_frame(views, y as int + 1, eight_by_sixteen),
                decreases 161 - x,
            {
                let found = winning_sprite_index(&sprites, &admitted, x, y, eight_by_sixteen);
                match found {
                    Option::None => {},
                    Option::Some(j) => {
                        proof {
                            assert(sprite_views(sprites@)[j as int] == sprites@[j as int]@);
                        }
                        let color = sprites[j].get_pixel(x, y, eight_by_sixteen);
                        let ghost before = screen@;
                        screen.push(ColorPosition::new(x, y, color));
                        proof {
                            assert(before + (seq![ColorPosition { y, x, color }] + sprite_line(
                                adm,
                                y as int,
                                x as int + 1,
                                eight_by_sixteen,
                            )) =~= screen@ + sprite_line(
                                adm,
                                y as int,
                                x as int + 1,
                                eight_by_sixteen,
                            ));
                        }
                    },
                }
                x = x + 1;
            }
            proof {
                assert(screen@ + Seq::<ColorPosition>::empty() + sprite_frame(
                    views,
                    y as int + 1,
                    eight_by_sixteen,
                ) =~= screen@ + sprite_frame(views, y as int + 1, eight_by_sixteen));
            }
            y = y + 1;
        }
        screen
    }
}

/// The index (into `sprites`) of the sprite that wins priority at pixel
/// (x, y) among the sprites `admitted` selects, scanned in order; `None`
/// when no selected sprite's box contains the pixel.
#[verifier::loop_isolation(false)]
fn winning_sprite_index(
    sprites: &Vec<Sprite>,
    admitted: &Vec<usize>,
    x: i32,
    y: i32,
    tall: bool,
) -> (r: Option<usize>)
    requires
        forall|i: int|
            0 <= i < sprites@.len() ==> sprite_wf(#[trigger] sprite_views(sprites@)[i]),
        forall|k: int| 0 <= k < admitted@.len() ==> admitted@[k] < sprites@.len(),
    ensures
        match r {
            Option::Some(j) => j < sprites@.len() && winning_sprite(
                sprites_at(sprites@, admitted@),
                x as int,
                y as int,
                tall,
            ) == Option::Some(sprites@[j as int]@) && sprite_contains(
                sprites@[j as int]@,
                x as int,
                y as int,
                tall,
            ),
            Option::None => winning_sprite(sprites_at(sprites@, admitted@), x as int, y as int, tall)
                matches Option::None,
        },
{
    let ghost selected = sprites_at(sprites@, admitted@);
    let mut chosen: Option<usize> = Option::None;
    let mut k: usize = 0;
    while k < admitted.len()
        invariant
            k <= admitted@.len(),
            match chosen {
                Option::Some(j) => j < sprites@.len() && winning_sprite(
                    selected.take(k as int),
                    x as int,
                    y as int,
                    tall,
                ) == Option::Some(sprites@[j as int]@) && sprite_contains(
                    sprites@[j as int]@,
                    x as int,
                    y as int,
                    tall,
                ),
                Option::None => winning_sprite(selected.take(k as int), x as int, y as int, tall)
                    matches Option::None,
            },
        decreases admitted@.len() - k,
    {
        let replace = match chosen {
            Option::None => true,
            Option::Some(j) => {
                proof {
                    assert(sprite_views(sprites@)[j as int] == sprites@[j as int]@);
                }
                let c = sprites[j].get_pixel(x, y, tall);
                c == (Color { r: 255, g: 255, b: 255 })
            },
        };
        proof {
            assert(selected.take(k + 1).drop_last() =~= selected.take(k as int));
            assert(selected.take(k + 1).last() == sprites@[admitted@[k as int] as int]@);
        }
        let index = admitted[k];
        proof {
            assert(sprite_views(sprites@)[index as int] == sprites@[index as int]@);
        }
        if replace {
            if sprites[index].compare_bool(x, y, tall) {
                chosen = Option::Some(index);
            }
        }
        k = k + 1;
    }
    proof {
        assert(selected.take(admitted@.len() as int) =~= selected);
    }
    chosen
}

} // verus!
