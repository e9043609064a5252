use vstd::prelude::*;

use crate::text::chars_of;

verus! {

// ---------------------------------------------------------------------------
// The application icon, from the bytes of an ICO file
// ---------------------------------------------------------------------------
/// The little-endian 16-bit number at `at`.
pub open spec fn le_u16(b: Seq<u8>, at: int) -> int {
    b[at] + 256 * b[at + 1]
}

/// The little-endian 32-bit number at `at`.
pub open spec fn le_u32(b: Seq<u8>, at: int) -> int {
    b[at] + 256 * b[at + 1] + 65536 * b[at + 2] + 16777216 * b[at + 3]
}

/// Offset of entry `i` of an ICO directory (each entry is 16 bytes, after a 6-byte header).
pub open spec fn entry_base(i: int) -> int {
    6 + 16 * i
}

/// A side of an icon image: its byte, 0 standing for 256.
pub open spec fn side(v: u8) -> int {
    if v == 0 {
        256
    } else {
        v as int
    }
}

/// The area of the image of entry `i`.
pub open spec fn icon_score(b: Seq<u8>, i: int) -> int {
    side(b[entry_base(i)]) * side(b[entry_base(i) + 1])
}

/// Where the image of entry `i` starts in the file.
pub open spec fn icon_offset(b: Seq<u8>, i: int) -> int {
    le_u32(b, entry_base(i) + 12)
}

/// How many bytes the image of entry `i` takes.
pub open spec fn icon_size(b: Seq<u8>, i: int) -> int {
    le_u32(b, entry_base(i) + 8)
}

/// Whether the image of entry `i` lies within the file.
pub open spec fn icon_fits(b: Seq<u8>, i: int) -> bool {
    icon_offset(b, i) + icon_size(b, i) <= b.len()
}

/// How many images the directory announces.
pub open spec fn icon_count(b: Seq<u8>) -> int {
    le_u16(b, 4)
}

/// Whether the header and the whole directory are within the file.
pub open spec fn directory_fits(b: Seq<u8>) -> bool {
    b.len() >= 6 && b.len() >= 6 + 16 * icon_count(b)
}

/// Entry `i` is the one chosen among the first `n`: its image lies within the file, no
/// such image is larger, and every such image before it is smaller.
pub open spec fn is_best_icon(b: Seq<u8>, n: int, i: int) -> bool {
    &&& 0 <= i < n
    &&& icon_fits(b, i)
    &&& forall|j: int| 0 <= j < n && icon_fits(b, j) ==> icon_score(b, j) <= icon_score(b, i)
    &&& forall|j: int| 0 <= j < i && icon_fits(b, j) ==> icon_score(b, j) < icon_score(b, i)
}

fn read_u32_le(bytes: &[u8], at: usize) -> (r: u64)
    requires
        at + 4 <= bytes@.len(),
    ensures
        r == le_u32(bytes@, at as int),
        r < 0x1_0000_0000,
{
    bytes[at] as u64 + 256 * (bytes[at + 1] as u64) + 65536 * (bytes[at + 2] as u64) + 16777216 * (
    bytes[at + 3] as u64)
}

fn side_of(v: u8) -> (r: u32)
    ensures
        r == side(v),
{
    if v == 0 {
        256
    } else {
        v as u32
    }
}

/// The image an icon is drawn from: of the images listed in an ICO file's directory that
/// lie within the file, the largest by area (the first of equal ones), as its offset and
/// size. None where the header or the directory is cut short, or no image fits.
pub fn parse_best_icon(bytes: &[u8]) -> (r: Option<(usize, usize)>)
    ensures
        match r {
            Some((offset, size)) => directory_fits(bytes@) && exists|i: int|
                is_best_icon(bytes@, icon_count(bytes@), i) && offset == icon_offset(bytes@, i) && size
                    == icon_size(bytes@, i),
            None => !directory_fits(bytes@) || forall|i: int|
                0 <= i < icon_count(bytes@) ==> !icon_fits(bytes@, i),
        },
{
    if bytes.len() < 6 {
        return None;
    }
    let count: usize = bytes[4] as usize + 256 * (bytes[5] as usize);
    if bytes.len() < 6 + count * 16 {
        return None;
    }
    let ghost b = bytes@;
    let mut best: Option<(usize, usize, u32)> = None;
    let ghost mut best_i: int = 0;
    let mut i: usize = 0;
    while i < count
        invariant
            b == bytes@,
            count == icon_count(b),
            directory_fits(b),
            i <= count,
            match best {
                Some((o, s, sc)) => is_best_icon(b, i as int, best_i) && o == icon_offset(b, best_i)
                    && s == icon_size(b, best_i) && sc == icon_score(b, best_i),
                None => forall|j: int| 0 <= j < i ==> !icon_fits(b, j),
            },
        decreases count - i,
    {
        let base: usize = 6 + i * 16;
        let w = side_of(bytes[base]);
        let h = side_of(bytes[base + 1]);
        let size = read_u32_le(bytes, base + 8);
        let offset = read_u32_le(bytes, base + 12);
        if offset + size <= bytes.len() as u64 {
            assert(w * h <= 65536) by (nonlinear_arith)
                requires
                    w <= 256,
                    h <= 256,
            ;
            let score = w * h;
            let better = match best {
                Some((_, _, best_score)) => score > best_score,
                None => true,
            };
            if better {
                best = Some((offset as usize, size as usize, score));
                proof {
                    best_i = i as int;
                }
            }
        }
        i = i + 1;
    }
    match best {
        Some((o, s, _)) => Some((o, s)),
        None => None,
    }
}

// ---------------------------------------------------------------------------
// The font of the watermark
// ---------------------------------------------------------------------------
/// The UTF-16 code units of one character.
pub open spec fn utf16_char(c: char) -> Seq<u16> {
    let v = c as u32;
    if v < 0x10000 {
        seq![v as u16]
    } else {
        seq![(0xD800 + (v - 0x10000) / 1024) as u16, (0xDC00 + (v - 0x10000) % 1024) as u16]
    }
}

/// The UTF-16 code units of a string, in order.
pub open spec fn utf16_of(s: Seq<char>) -> Seq<u16>
    decreases s.len(),
{
    if s.len() == 0 {
        Seq::empty()
    } else {
        utf16_of(s.drop_last()) + utf16_char(s.last())
    }
}

/// The UTF-16 code units of `s` (as `str::encode_utf16`).
pub fn encode_utf16(s: &str) -> (r: Vec<u16>)
    ensures
        r@ == utf16_of(s@),
{
    let v = chars_of(s);
    let mut r: Vec<u16> = Vec::new();
    let mut i: usize = 0;
    while i < v.len()
        invariant
            v@ == s@,
            i <= v@.len(),
            r@ == utf16_of(s@.take(i as int)),
        decreases v@.len() - i,
    {
        let c = v[i];
        let code = c as u32;
        proof {
            assert(s@.take(i + 1).drop_last() =~= s@.take(i as int));
            assert(s@.take(i + 1).last() == c);
        }
        if code < 0x10000 {
            r.push(code as u16);
            proof {
                assert(r@ =~= utf16_of(s@.take(i as int)) + utf16_char(c));
            }
        } else {
            let u = code - 0x10000;
            r.push((0xD800 + u / 1024) as u16);
            r.push((0xDC00 + u % 1024) as u16);
            proof {
                assert(r@ =~= utf16_of(s@.take(i as int)) + utf16_char(c));
            }
        }
        i = i + 1;
    }
    proof {
        assert(s@.take(v@.len() as int) =~= s@);
    }
    r
}

/// The face name of a font after `name` is written into it: its first code units replaced
/// by those of `name`, as many as fit; the slots after them keep what they held.
pub open spec fn with_face_name(face: Seq<u16>, name: Seq<char>) -> Seq<u16> {
    let units = utf16_of(name);
    let k = if units.len() < face.len() {
        units.len() as int
    } else {
        face.len() as int
    };
    units.take(k) + face.skip(k)
}

/// Writes `name` into a font's face name (see `with_face_name`).
pub fn set_face_name(face: &mut [u16; 32], name: &str)
    ensures
        final(face)@ == with_face_name(old(face)@, name@),
{
    let units = encode_utf16(name);
    let mut i: usize = 0;
    while i < 32 && i < units.len()
        invariant
            i <= 32,
            i <= units@.len(),
            units@ == utf16_of(name@),
            face@.len() == 32,
            face@ == units@.take(i as int) + old(face)@.skip(i as int),
        decreases 32 - i,
    {
        face[i] = units[i];
        proof {
            assert(face@ =~= units@.take(i + 1) + old(face)@.skip(i + 1));
        }
        i = i + 1;
    }
    proof {
        assert(face@ =~= with_face_name(old(face)@, name@));
    }
}

// ---------------------------------------------------------------------------
// The watermark's tiles
// ---------------------------------------------------------------------------
/// Horizontal distance between watermark tiles.
pub const TILE_STEP_X: i32 = 200;

/// Vertical distance between watermark rows.
pub const TILE_STEP_Y: i32 = 160;

/// Size of the icon in a tile.
pub const TILE_ICON_SIZE: i32 = 32;

/// The last row of tiles for a client area `height` high (rows start at -1).
pub open spec fn last_row(height: int) -> int {
    height / 160 + 1
}

/// The last column of tiles for a client area `width` wide (columns start at -1).
pub open spec fn last_col(width: int) -> int {
    width / 200 + 1
}

/// Where the tile of row `row` and column `col` starts: rows 160 apart, columns 200 apart,
/// each row shifted by half a column per row (rounded toward zero).
pub open spec fn tile_origin(row: int, col: int) -> (int, int) {
    let shift = if row >= 0 {
        (row * 200) / 2
    } else {
        -((-row * 200) / 2)
    };
    (col * 200 + shift, row * 160)
}

/// Whether the tiles of a `width` by `height` client area are computed within `i32`.
pub open spec fn tiles_fit(width: i32, height: i32) -> bool {
    &&& last_row(height as int) * 160 + 8 <= i32::MAX
    &&& last_row(height as int) * 200 <= i32::MAX
    &&& last_col(width as int) * 200 + last_row(height as int) * 100 + 42 <= i32::MAX
}

/// The tiles of the watermark, row by row from row -1 down to `last_row`, each row from
/// column -1 to `last_col`: `tiles[k]` is the tile of row `k / cols - 1` and column
/// `k % cols - 1`. A client area without width or height has none.
pub open spec fn is_tile_layout(width: i32, height: i32, tiles: Seq<(i32, i32)>) -> bool {
    if width <= 0 || height <= 0 {
        tiles.len() == 0
    } else {
        let cols = last_col(width as int) + 2;
        let rows = last_row(height as int) + 2;
        &&& tiles.len() == rows * cols
        &&& forall|k: int|
            0 <= k < tiles.len() ==> ((#[trigger] tiles[k]).0 as int, tiles[k].1 as int)
                == tile_origin(k / cols - 1, k % cols - 1)
    }
}

proof fn lemma_tile_index(k: int, cols: int, row: int, col: int)
    requires
        cols > 0,
        0 <= row,
        0 <= col < cols,
        k == row * cols + col,
    ensures
        k / cols == row,
        k % cols == col,
{
    vstd::arithmetic::div_mod::lemma_fundamental_div_mod_converse(k, cols, row, col);
}

/// Where the watermark's tiles start (see `is_tile_layout`): the icon is drawn there and
/// the text 42 pixels to the right and 8 below.
pub fn watermark_tiles(width: i32, height: i32) -> (tiles: Vec<(i32, i32)>)
    requires
        tiles_fit(width, height),
    ensures
        is_tile_layout(width, height, tiles@),
{
    let mut tiles: Vec<(i32, i32)> = Vec::new();
    if width <= 0 || height <= 0 {
        return tiles;
    }
    let max_row = height / 160 + 1;
    let max_col = width / 200 + 1;
    let ghost cols = last_col(width as int) + 2;
    let mut row: i32 = -1;
    while row <= max_row
        invariant
            width > 0,
            height > 0,
            tiles_fit(width, height),
            max_row == last_row(height as int),
            max_col == last_col(width as int),
            cols == max_col + 2,
            -1 <= row <= max_row + 1,
            tiles@.len() == (row + 1) * cols,
            forall|k: int|
                0 <= k < tiles@.len() ==> ((#[trigger] tiles@[k]).0 as int, tiles@[k].1 as int)
                    == tile_origin(k / cols - 1, k % cols - 1),
        decreases max_row + 1 - row,
    {
        assert(row * 160 <= max_row * 160) by (nonlinear_arith)
            requires
                row <= max_row,
        ;
        assert(-160 <= row * 160) by (nonlinear_arith)
            requires
                -1 <= row,
        ;
        let y = row * 160;
        assert(-200 <= row * 200 && row * 200 <= max_row * 200) by (nonlinear_arith)
            requires
                -1 <= row <= max_row,
        ;
        let row_offset = (row * 200) / 2;
        let mut col: i32 = -1;
        while col <= max_col
            invariant
                width > 0,
                height > 0,
                tiles_fit(width, height),
                max_row == last_row(height as int),
                max_col == last_col(width as int),
                cols == max_col + 2,
                -1 <= row <= max_row,
                -1 <= col <= max_col + 1,
                y == row * 160,
                row_offset == tile_origin(row as int, 0).0,
                -100 <= row_offset <= max_row * 100,
                tiles@.len() == (row + 1) * cols + (col + 1),
                forall|k: int|
                    0 <= k < tiles@.len() ==> ((#[trigger] tiles@[k]).0 as int, tiles@[k].1 as int)
                        == tile_origin(k / cols - 1, k % cols - 1),
            decreases max_col + 1 - col,
        {
            assert(-200 <= col * 200 && col * 200 <= max_col * 200) by (nonlinear_arith)
                requires
                    -1 <= col <= max_col,
            ;
            let x = col * 200 + row_offset;
            let ghost k = tiles@.len() as int;
            proof {
                lemma_tile_index(k, cols, row + 1, col + 1);
                assert(k == (row + 1) * cols + (col + 1));
            }
            tiles.push((x, y));
            col = col + 1;
        }
        proof {
            assert((row + 1) * cols + (max_col + 2) == (row + 2) * cols) by (nonlinear_arith)
                requires
                    cols == max_col + 2,
            ;
        }
        row = row + 1;
    }
    proof {
        assert(tiles@.len() == (last_row(height as int) + 2) * cols);
    }
    tiles
}

// ---------------------------------------------------------------------------
// The separation layer's window messages
// ---------------------------------------------------------------------------
/// `WM_DESTROY` of the Windows API.
pub const WM_DESTROY: u32 = 0x0002;

/// `WM_PAINT` of the Windows API.
pub const WM_PAINT: u32 = 0x000F;

/// `WM_ERASEBKGND` of the Windows API.
pub const WM_ERASEBKGND: u32 = 0x0014;

/// How the separation layer's window answers a message.
#[derive(Clone, Copy, PartialEq, Eq, Debug, Structural)]
pub enum SeparationMessage {
    /// Claim the background as erased (it is painted whole on `WM_PAINT`).
    EraseBackground,
    /// Paint the gradient and the watermark.
    Paint,
    /// End the window's message loop and free the icon.
    Destroy,
    /// Leave the message to the default window procedure.
    Default,
}

/// How the separation layer's window answers the message `msg`.
pub fn separation_message(msg: u32) -> (r: SeparationMessage)
    ensures
        r == (if msg == WM_ERASEBKGND {
            SeparationMessage::EraseBackground
        } else if msg == WM_PAINT {
            SeparationMessage::Paint
        } else if msg == WM_DESTROY {
            SeparationMessage::Destroy
        } else {
            SeparationMessage::Default
        }),
{
    if msg == WM_ERASEBKGND {
        SeparationMessage::EraseBackground
    } else if msg == WM_PAINT {
        SeparationMessage::Paint
    } else if msg == WM_DESTROY {
        SeparationMessage::Destroy
    } else {
        SeparationMessage::Default
    }
}

} // verus!
