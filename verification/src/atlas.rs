//! The pixels of the interface atlas: slot frames, nine-slice panel pieces
//! and an eight-by-eight bitmap font, laid out in sixteen-pixel cells on a
//! 256 by 256 grid.
use vstd::prelude::*;

verus! {

/// One pixel: red, green, blue and alpha.
#[derive(Clone, Copy, PartialEq, Eq, Structural, Debug)]
pub struct Rgba(pub u8, pub u8, pub u8, pub u8);

/// The atlas is this many pixels wide and high.
pub const ATLAS_SIZE: usize = 256;

/// Glyphs of the printable ASCII characters 32 to 126, in that order: eight
/// rows of eight pixels, the top row in the most significant byte and the
/// leftmost pixel of a row in the most significant bit of its byte.
pub const FONT_GLYPHS: [u64; 95] = [
    0x0000000000000000, // ' '
    0x1818181818001800, // '!'
    0x6C6C240000000000, // '"'
    0x247E24247E240000, // '#'
    0x103C503814781000, // '$'
    0x6264081026460000, // '%'
    0x3048305688887600, // '&'
    0x1818080000000000, // "'"
    0x0810202020100800, // '('
    0x2010080808102000, // ')'
    0x0024187E18240000, // '*'
    0x0010107C10100000, // '+'
    0x0000000000181810, // ','
    0x0000007E00000000, // '-'
    0x0000000000181800, // '.'
    0x0204081020408000, // '/'
    0x3C464A52623C0000, // '0'
    0x18381818187E0000, // '1'
    0x3C42021C207E0000, // '2'
    0x3C420C02423C0000, // '3'
    0x081828487E080000, // '4'
    0x7E407C02423C0000, // '5'
    0x1C207C42423C0000, // '6'
    0x7E02040810100000, // '7'
    0x3C423C42423C0000, // '8'
    0x3C42423E04380000, // '9'
    0x0018180018180000, // ':'
    0x0018180018181000, // ';'
    0x0408102010080400, // '<'
    0x00007E007E000000, // '='
    0x2010080408102000, // '>'
    0x3C42040800080000, // '?'
    0x3C425E525E403C00, // '@'
    0x1824427E42420000, // 'A'
    0x7C427C42427C0000, // 'B'
    0x3C424040423C0000, // 'C'
    0x7844424244780000, // 'D'
    0x7E407C40407E0000, // 'E'
    0x7E407C4040400000, // 'F'
    0x3C42404E423C0000, // 'G'
    0x42427E4242420000, // 'H'
    0x7E181818187E0000, // 'I'
    0x1E04040444380000, // 'J'
    0x4244784844420000, // 'K'
    0x40404040407E0000, // 'L'
    0x42665A4242420000, // 'M'
    0x4262524A46420000, // 'N'
    0x3C424242423C0000, // 'O'
    0x7C42427C40400000, // 'P'
    0x3C42424A443A0000, // 'Q'
    0x7C42427C44420000, // 'R'
    0x3C403C02423C0000, // 'S'
    0x7E18181818180000, // 'T'
    0x42424242423C0000, // 'U'
    0x4242424224180000, // 'V'
    0x4242425A66420000, // 'W'
    0x4224181824420000, // 'X'
    0x4242241818180000, // 'Y'
    0x7E040810207E0000, // 'Z'
    0x3C303030303C0000, // '['
    0x8040201008040200, // '\\'
    0x3C0C0C0C0C3C0000, // ']'
    0x1028440000000000, // '^'
    0x0000000000007E00, // '_'
    0x3030100000000000, // '`'
    0x00003C023E423E00, // 'a'
    0x40407C42427C0000, // 'b'
    0x00003C40403C0000, // 'c'
    0x02023E42423E0000, // 'd'
    0x00003C427E403C00, // 'e'
    0x0C103C1010100000, // 'f'
    0x00003E423E023C00, // 'g'
    0x40407C4242420000, // 'h'
    0x18003818183C0000, // 'i'
    0x04000C0404443800, // 'j'
    0x4040447848440000, // 'k'
    0x38181818183C0000, // 'l'
    0x0000645A42420000, // 'm'
    0x00007C4242420000, // 'n'
    0x00003C42423C0000, // 'o'
    0x00007C427C404000, // 'p'
    0x00003E423E020200, // 'q'
    0x00005C6040400000, // 'r'
    0x00003E403C027C00, // 's'
    0x10103C10100C0000, // 't'
    0x00004242423E0000, // 'u'
    0x0000424224180000, // 'v'
    0x000042425A240000, // 'w'
    0x0000422418244200, // 'x'
    0x000042423E023C00, // 'y'
    0x00007E0418207E00, // 'z'
    0x0C10102010100C00, // '{'
    0x1818181818181800, // '|'
    0x3008080408083000, // '}'
    0x00324C0000000000, // '~'
];

/// Pixel `(lx, ly)` of a cell lies on the ring `k` pixels in from its edge.
pub open spec fn on_ring(lx: int, ly: int, k: int) -> bool {
    lx == k || lx == 15 - k || ly == k || ly == 15 - k
}

/// The three slot cells of the top row: an empty slot (cell 0), the
/// selected slot (cell 1) and a hovered slot (cell 2).
pub open spec fn slot_pixel(cell: int, lx: int, ly: int) -> Rgba {
    let slot_bg = Rgba(40, 40, 48, 255);
    if cell == 0 {
        if on_ring(lx, ly, 0) {
            Rgba(60, 60, 70, 255)
        } else if on_ring(lx, ly, 1) {
            Rgba(30, 30, 35, 255)
        } else {
            slot_bg
        }
    } else if cell == 1 {
        if on_ring(lx, ly, 0) {
            Rgba(255, 255, 180, 100)
        } else if on_ring(lx, ly, 1) {
            Rgba(255, 255, 200, 255)
        } else {
            slot_bg
        }
    } else {
        if on_ring(lx, ly, 0) {
            Rgba(100, 100, 120, 255)
        } else {
            Rgba(50, 50, 60, 255)
        }
    }
}

/// The panel's light outer edge, its border line and its body.
pub enum PanelShade {
    Highlight,
    Border,
    Body,
}

/// The nine pieces of a panel in the second row, in the order top-left,
/// top, top-right, left, centre, right, bottom-left, bottom, bottom-right:
/// which shade pixel `(lx, ly)` of piece `piece` has.
pub open spec fn panel_shade(piece: int, lx: int, ly: int) -> PanelShade {
    if piece == 0 {
        if lx < 2 || ly < 2 { PanelShade::Highlight }
        else if lx < 3 || ly < 3 { PanelShade::Border }
        else { PanelShade::Body }
    } else if piece == 1 {
        if ly < 2 { PanelShade::Highlight }
        else if ly < 3 { PanelShade::Border }
        else { PanelShade::Body }
    } else if piece == 2 {
        if ly < 2 { PanelShade::Highlight }
        else if lx > 12 || ly < 3 { PanelShade::Border }
        else { PanelShade::Body }
    } else if piece == 3 {
        if lx < 2 { PanelShade::Highlight }
        else if lx < 3 { PanelShade::Border }
        else { PanelShade::Body }
    } else if piece == 4 {
        PanelShade::Body
    } else if piece == 5 {
        if lx > 13 { PanelShade::Border } else { PanelShade::Body }
    } else if piece == 6 {
        if lx < 2 { PanelShade::Highlight }
        else if lx < 3 || ly > 12 { PanelShade::Border }
        else { PanelShade::Body }
    } else if piece == 7 {
        if ly > 13 { PanelShade::Border } else { PanelShade::Body }
    } else {
        if lx > 13 || ly > 13 { PanelShade::Border } else { PanelShade::Body }
    }
}

/// The colour of a panel shade.
pub open spec fn panel_colour(shade: PanelShade) -> Rgba {
    match shade {
        PanelShade::Highlight => Rgba(90, 90, 100, 255),
        PanelShade::Border => Rgba(70, 70, 80, 255),
        PanelShade::Body => Rgba(25, 25, 30, 240),
    }
}

/// Row `row`, column `col` of glyph `g` is lit.
pub open spec fn glyph_lit(g: u64, row: int, col: int) -> bool {
    (g >> ((63 - 8 * row - col) as u64)) & 1 == 1
}

/// A glyph sits in the middle of its cell, four pixels in from each side;
/// its lit pixels are white, the rest of the cell is clear.
pub open spec fn font_pixel(glyph: int, lx: int, ly: int) -> Rgba {
    if 4 <= lx < 12 && 4 <= ly < 12 && glyph_lit(FONT_GLYPHS@[glyph], ly - 4, lx - 4) {
        Rgba(255, 255, 255, 255)
    } else {
        Rgba(0, 0, 0, 0)
    }
}

/// The colour of atlas pixel `(x, y)`: the slot cells at the start of the
/// first row of cells, the panel pieces at the start of the second, the
/// glyphs from the fifth row on, sixteen to a row in character order, and
/// clear pixels everywhere else.
pub open spec fn ui_atlas_pixel(x: int, y: int) -> Rgba {
    let (cx, cy, lx, ly) = (x / 16, y / 16, x % 16, y % 16);
    if cy == 0 && cx < 3 {
        slot_pixel(cx, lx, ly)
    } else if cy == 1 && cx < 9 {
        panel_colour(panel_shade(cx, lx, ly))
    } else if cy >= 4 && (cy - 4) * 16 + cx < 95 {
        font_pixel((cy - 4) * 16 + cx, lx, ly)
    } else {
        Rgba(0, 0, 0, 0)
    }
}

fn ring(lx: usize, ly: usize, k: usize) -> (b: bool)
    requires
        k < 16,
    ensures
        b == on_ring(lx as int, ly as int, k as int),
{
    lx == k || lx == 15 - k || ly == k || ly == 15 - k
}

fn slot_cell_pixel(cell: usize, lx: usize, ly: usize) -> (c: Rgba)
    ensures
        c == slot_pixel(cell as int, lx as int, ly as int),
{
    if cell == 0 {
        if ring(lx, ly, 0) {
            Rgba(60, 60, 70, 255)
        } else if ring(lx, ly, 1) {
            Rgba(30, 30, 35, 255)
        } else {
            Rgba(40, 40, 48, 255)
        }
    } else if cell == 1 {
        if ring(lx, ly, 0) {
            Rgba(255, 255, 180, 100)
        } else if ring(lx, ly, 1) {
            Rgba(255, 255, 200, 255)
        } else {
            Rgba(40, 40, 48, 255)
        }
    } else if ring(lx, ly, 0) {
        Rgba(100, 100, 120, 255)
    } else {
        Rgba(50, 50, 60, 255)
    }
}

fn panel_piece_shade(piece: usize, lx: usize, ly: usize) -> (s: PanelShade)
    ensures
        s == panel_shade(piece as int, lx as int, ly as int),
{
    if piece == 0 {
        if lx < 2 || ly < 2 { PanelShade::Highlight }
        else if lx < 3 || ly < 3 { PanelShade::Border }
        else { PanelShade::Body }
    } else if piece == 1 {
        if ly < 2 { PanelShade::Highlight }
        else if ly < 3 { PanelShade::Border }
        else { PanelShade::Body }
    } else if piece == 2 {
        if ly < 2 { PanelShade::Highlight }
        else if lx > 12 || ly < 3 { PanelShade::Border }
        else { PanelShade::Body }
    } else if piece == 3 {
        if lx < 2 { PanelShade::Highlight }
        else if lx < 3 { PanelShade::Border }
        else { PanelShade::Body }
    } else if piece == 4 {
        PanelShade::Body
    } else if piece == 5 {
        if lx > 13 { PanelShade::Border } else { PanelShade::Body }
    } else if piece == 6 {
        if lx < 2 { PanelShade::Highlight }
        else if lx < 3 || ly > 12 { PanelShade::Border }
        else { PanelShade::Body }
    } else if piece == 7 {
        if ly > 13 { PanelShade::Border } else { PanelShade::Body }
    } else if lx > 13 || ly > 13 {
        PanelShade::Border
    } else {
        PanelShade::Body
    }
}

fn shade_colour(shade: PanelShade) -> (c: Rgba)
    ensures
        c == panel_colour(shade),
{
    match shade {
        PanelShade::Highlight => Rgba(90, 90, 100, 255),
        PanelShade::Border => Rgba(70, 70, 80, 255),
        PanelShade::Body => Rgba(25, 25, 30, 240),
    }
}

fn glyph_cell_pixel(glyph: usize, lx: usize, ly: usize) -> (c: Rgba)
    requires
        glyph < 95,
        lx < 16,
        ly < 16,
    ensures
        c == font_pixel(glyph as int, lx as int, ly as int),
{
    if 4 <= lx && lx < 12 && 4 <= ly && ly < 12 {
        let g: u64 = FONT_GLYPHS[glyph];
        let shift: u64 = (63 - 8 * (ly - 4) - (lx - 4)) as u64;
        if (g >> shift) & 1 == 1 {
            return Rgba(255, 255, 255, 255);
        }
    }
    Rgba(0, 0, 0, 0)
}

fn atlas_pixel_at(x: usize, y: usize) -> (c: Rgba)
    requires
        x < ATLAS_SIZE,
        y < ATLAS_SIZE,
    ensures
        c == ui_atlas_pixel(x as int, y as int),
{
    let cx = x / 16;
    let cy = y / 16;
    let lx = x % 16;
    let ly = y % 16;
    if cy == 0 && cx < 3 {
        slot_cell_pixel(cx, lx, ly)
    } else if cy == 1 && cx < 9 {
        shade_colour(panel_piece_shade(cx, lx, ly))
    } else if cy >= 4 && (cy - 4) * 16 + cx < 95 {
        glyph_cell_pixel((cy - 4) * 16 + cx, lx, ly)
    } else {
        Rgba(0, 0, 0, 0)
    }
}

/// The pixels of the interface atlas, row by row: pixel `j` is the one at
/// column `j % 256` of row `j / 256`.
pub fn generate_ui_atlas() -> (data: Vec<Rgba>)
    ensures
        data@.len() == ATLAS_SIZE * ATLAS_SIZE,
        forall|j: int| 0 <= j < ATLAS_SIZE * ATLAS_SIZE
            ==> #[trigger] data@[j] == ui_atlas_pixel(j % 256, j / 256),
{
    let total: usize = ATLAS_SIZE * ATLAS_SIZE;
    let mut data: Vec<Rgba> = Vec::new();
    let mut j: usize = 0;
    while j < total
        invariant
            total == ATLAS_SIZE * ATLAS_SIZE,
            j <= total,
            data@.len() == j,
            forall|k: int| 0 <= k < j ==> #[trigger] data@[k] == ui_atlas_pixel(k % 256, k / 256),
        decreases total - j,
    {
        let c = atlas_pixel_at(j % ATLAS_SIZE, j / ATLAS_SIZE);
        data.push(c);
        j = j + 1;
    }
    data
}

} // verus!
