//! Tray icons: which embedded icon resource stands for a battery state, and the
//! 16x16 RGBA "number icon" that shows the percentage as two digits.
use vstd::prelude::*;

use crate::battery::{BatteryStatus, Theme};

verus! {

// ---------------------------------------------------------------------------
// Icon resources
// ---------------------------------------------------------------------------

/// The level step (1 = empty .. 5 = full) that a battery percentage is shown as.
pub open spec fn level_step(battery_percent: int) -> int {
    if battery_percent == -1 {
        1
    } else if 0 <= battery_percent <= 12 {
        1
    } else if 13 <= battery_percent <= 37 {
        2
    } else if 38 <= battery_percent <= 62 {
        3
    } else if 63 <= battery_percent <= 87 {
        4
    } else {
        5
    }
}

/// Offset of the light-theme icons from the dark-theme ones.
pub open spec fn theme_offset(theme: Theme) -> int {
    if theme == Theme::Light {
        5
    } else {
        0
    }
}

/// Resource id of the tray icon for a theme, a percentage and a status:
/// dark icons are 10, 20, .., 50 and light icons 15, 25, .., 55; the charging
/// variant of an icon has the id one above it.
pub open spec fn battery_res_id(theme: Theme, battery_percent: int, state: BatteryStatus) -> int {
    if state == BatteryStatus::Unavailable {
        10 + theme_offset(theme)
    } else {
        level_step(battery_percent) * 10 + theme_offset(theme) + if state
            == BatteryStatus::Charging {
            1int
        } else {
            0int
        }
    }
}

/// The ids under which the build embeds icon resources: for each step
/// 10, 20, .., 50 the dark icon, its charging variant, the light icon and its
/// charging variant.
pub open spec fn is_embedded_icon_id(id: int) -> bool {
    exists|step: int| 1 <= step <= 5 && #[trigger] is_icon_id_of_step(step, id)
}

/// `id` is one of the four icons embedded for a level step.
pub open spec fn is_icon_id_of_step(step: int, id: int) -> bool {
    id == step * 10 || id == step * 10 + 1 || id == step * 10 + 5 || id == step * 10 + 6
}

/// Resource id of the embedded tray icon for the given theme, battery
/// percentage and status.
pub fn battery_res_id_for(theme: Theme, battery_percent: isize, state: BatteryStatus) -> (id: u16)
    ensures
        id == battery_res_id(theme, battery_percent as int, state),
        is_embedded_icon_id(id as int),
{
    let level: u16 = if battery_percent == -1 {
        1
    } else if 0 <= battery_percent && battery_percent <= 12 {
        1
    } else if 13 <= battery_percent && battery_percent <= 37 {
        2
    } else if 38 <= battery_percent && battery_percent <= 62 {
        3
    } else if 63 <= battery_percent && battery_percent <= 87 {
        4
    } else {
        5
    };
    let theme_offset: u16 = if theme == Theme::Light {
        5
    } else {
        0
    };
    let charging_offset: u16 = if state == BatteryStatus::Charging {
        1
    } else {
        0
    };
    let id = if state == BatteryStatus::Unavailable {
        10 + theme_offset
    } else {
        level * 10 + theme_offset + charging_offset
    };
    proof {
        lemma_res_id_embedded(theme, battery_percent as int, state);
    }
    id
}

/// Every id that `battery_res_id_for` can give is one that the build embeds.
pub proof fn lemma_res_id_embedded(theme: Theme, battery_percent: int, state: BatteryStatus)
    ensures
        is_embedded_icon_id(battery_res_id(theme, battery_percent, state)),
{
    let step = if state == BatteryStatus::Unavailable {
        1
    } else {
        level_step(battery_percent)
    };
    assert(is_icon_id_of_step(step, battery_res_id(theme, battery_percent, state)));
}

/// The charging icon of a state is the icon right after the one shown while
/// running on battery.
pub proof fn lemma_charging_icon_follows(theme: Theme, battery_percent: int)
    ensures
        battery_res_id(theme, battery_percent, BatteryStatus::Charging) == battery_res_id(
            theme,
            battery_percent,
            BatteryStatus::Available,
        ) + 1,
{
}

/// Light-theme icons sit five ids above the matching dark-theme icons.
pub proof fn lemma_light_icons_offset(battery_percent: int, state: BatteryStatus)
    ensures
        battery_res_id(Theme::Light, battery_percent, state) == battery_res_id(
            Theme::Dark,
            battery_percent,
            state,
        ) + 5,
{
}

/// A fuller battery never shows an emptier icon: over the percentages from -1
/// up, the level step does not decrease.
pub proof fn lemma_level_step_monotone(low: int, high: int)
    requires
        -1 <= low <= high,
    ensures
        level_step(low) <= level_step(high),
        1 <= level_step(low) <= 5,
{
}

// ---------------------------------------------------------------------------
// Pixel buffers
// ---------------------------------------------------------------------------

/// Byte offset of pixel (x, y) in an RGBA buffer `size` pixels wide.
pub open spec fn pixel_offset(size: int, x: int, y: int) -> int {
    4 * (y * size + x)
}

/// The four bytes at `base` hold `color`.
pub open spec fn pixel_is(img: Seq<u8>, base: int, color: [u8; 4]) -> bool {
    &&& img[base] == color[0]
    &&& img[base + 1] == color[1]
    &&& img[base + 2] == color[2]
    &&& img[base + 3] == color[3]
}

/// `after` is `before` with the four bytes at `base` set to `color`, or
/// `before` unchanged where those bytes do not all lie inside the buffer.
pub open spec fn pixel_put(before: Seq<u8>, after: Seq<u8>, base: int, color: [u8; 4]) -> bool {
    &&& after.len() == before.len()
    &&& base + 3 < before.len() ==> pixel_is(after, base, color)
    &&& forall|k: int|
        0 <= k < before.len() && !(base <= k < base + 4 && base + 3 < before.len())
            ==> #[trigger] after[k] == before[k]
}

/// Writes `color` at pixel (x, y) of an RGBA buffer `size` pixels wide; a pixel
/// whose four bytes do not all lie inside the buffer is left out.
pub fn put_pixel(img: &mut [u8], size: u32, x: u32, y: u32, color: [u8; 4])
    requires
        (y as int) * (size as int) + x <= 0x3fff_ffff,
    ensures
        pixel_put(old(img)@, final(img)@, pixel_offset(size as int, x as int, y as int), color),
{
    let idx = ((y * size + x) * 4) as usize;
    if idx + 3 < img.len() {
        img[idx] = color[0];
        img[idx + 1] = color[1];
        img[idx + 2] = color[2];
        img[idx + 3] = color[3];
    }
}

// ---------------------------------------------------------------------------
// Digits
// ---------------------------------------------------------------------------

/// The 6x12 bitmap of a decimal digit: twelve rows, top first, of which the
/// low six bits are the pixels from left (bit 5) to right (bit 0).
pub open spec fn digit_rows(digit: int) -> Seq<u8> {
    if digit == 0 {
        seq![
            0b111111u8, 0b110011, 0b110011, 0b110011, 0b110011, 0b110011, 0b110011, 0b110011,
            0b110011, 0b110011, 0b111111, 0b000000,
        ]
    } else if digit == 1 {
        seq![
            0b001100u8, 0b001100, 0b001100, 0b001100, 0b001100, 0b001100, 0b001100, 0b001100,
            0b001100, 0b001100, 0b001100, 0b000000,
        ]
    } else if digit == 2 {
        seq![
            0b111111u8, 0b000011, 0b000011, 0b000011, 0b000011, 0b111111, 0b110000, 0b110000,
            0b110000, 0b110000, 0b111111, 0b000000,
        ]
    } else if digit == 3 {
        seq![
            0b111111u8, 0b000011, 0b000011, 0b000011, 0b000011, 0b111111, 0b000011, 0b000011,
            0b000011, 0b000011, 0b111111, 0b000000,
        ]
    } else if digit == 4 {
        seq![
            0b110011u8, 0b110011, 0b110011, 0b110011, 0b110011, 0b111111, 0b000011, 0b000011,
            0b000011, 0b000011, 0b000011, 0b000000,
        ]
    } else if digit == 5 {
        seq![
            0b111111u8, 0b110000, 0b110000, 0b110000, 0b110000, 0b111111, 0b000011, 0b000011,
            0b000011, 0b000011, 0b111111, 0b000000,
        ]
    } else if digit == 6 {
        seq![
            0b111111u8, 0b110000, 0b110000, 0b110000, 0b110000, 0b111111, 0b110011, 0b110011,
            0b110011, 0b110011, 0b111111, 0b000000,
        ]
    } else if digit == 7 {
        seq![
            0b111111u8, 0b000011, 0b000011, 0b000011, 0b000110, 0b001100, 0b011000, 0b011000,
            0b011000, 0b011000, 0b011000, 0b000000,
        ]
    } else if digit == 8 {
        seq![
            0b111111u8, 0b110011, 0b110011, 0b110011, 0b110011, 0b111111, 0b110011, 0b110011,
            0b110011, 0b110011, 0b111111, 0b000000,
        ]
    } else {
        seq![
            0b111111u8, 0b110011, 0b110011, 0b110011, 0b110011, 0b111111, 0b000011, 0b000011,
            0b000011, 0b000011, 0b111111, 0b000000,
        ]
    }
}

/// The digit glyphs are drawn from bars: a top, middle and bottom bar that
/// fill a whole row, and upper and lower strokes on the left (bit 5) and
/// right (bit 0) edges, lit as on a seven-segment display; the 1 is a centred
/// stroke and the 7 bends in the middle, so they light none of the edge
/// strokes of the lower half. The last row is always blank.
pub proof fn lemma_digit_bars(digit: int)
    requires
        0 <= digit < 10,
    ensures
        digit_rows(digit).len() == 12,
        digit_rows(digit)[11] == 0,
        (digit_rows(digit)[0] == 0b111111) <==> (digit != 1 && digit != 4),
        (digit_rows(digit)[5] == 0b111111) <==> (digit != 0 && digit != 1 && digit != 7),
        (digit_rows(digit)[10] == 0b111111) <==> (digit != 1 && digit != 4 && digit != 7),
        (digit_rows(digit)[2] >= 0b100000) <==> (digit == 0 || digit == 4 || digit == 5 || digit
            == 6 || digit == 8 || digit == 9),
        (digit_rows(digit)[2] % 2 == 1) <==> (digit == 0 || digit == 2 || digit == 3 || digit == 4
            || digit == 7 || digit == 8 || digit == 9),
        (digit_rows(digit)[8] >= 0b100000) <==> (digit == 0 || digit == 2 || digit == 6 || digit
            == 8),
        (digit_rows(digit)[8] % 2 == 1) <==> (digit == 0 || digit == 3 || digit == 4 || digit == 5
            || digit == 6 || digit == 8 || digit == 9),
{
}

/// No two digits share a glyph, so the icon can be read back.
pub proof fn lemma_digit_glyphs_distinct(a: int, b: int)
    requires
        0 <= a < 10,
        0 <= b < 10,
        a != b,
    ensures
        digit_rows(a) != digit_rows(b),
{
    if digit_rows(a) == digit_rows(b) {
        assert(digit_rows(a)[0] == digit_rows(b)[0]);
        assert(digit_rows(a)[1] == digit_rows(b)[1]);
        assert(digit_rows(a)[5] == digit_rows(b)[5]);
        assert(digit_rows(a)[6] == digit_rows(b)[6]);
    }
}

/// Bit `5 - col` of a bitmap row: whether column `col` of that row is drawn.
pub open spec fn row_bit(row_bits: u8, col: int) -> bool {
    (row_bits >> ((5 - col) as u32)) & 1u8 == 1u8
}

/// Pixel (col, row) of the bitmap of `digit` is drawn.
pub open spec fn digit_lit(digit: int, row: int, col: int) -> bool {
    0 <= row < 12 && 0 <= col < 6 && row_bit(digit_rows(digit)[row], col)
}

/// Row `row` of the bitmap of a digit.
fn digit_row(digit: usize, row: usize) -> (bits: u8)
    requires
        digit < 10,
        row < 12,
    ensures
        bits == digit_rows(digit as int)[row as int],
{
    let rows: [u8; 12] = match digit {
        0 => [
            0b111111, 0b110011, 0b110011, 0b110011, 0b110011, 0b110011, 0b110011, 0b110011,
            0b110011, 0b110011, 0b111111, 0b000000,
        ],
        1 => [
            0b001100, 0b001100, 0b001100, 0b001100, 0b001100, 0b001100, 0b001100, 0b001100,
            0b001100, 0b001100, 0b001100, 0b000000,
        ],
        2 => [
            0b111111, 0b000011, 0b000011, 0b000011, 0b000011, 0b111111, 0b110000, 0b110000,
            0b110000, 0b110000, 0b111111, 0b000000,
        ],
        3 => [
            0b111111, 0b000011, 0b000011, 0b000011, 0b000011, 0b111111, 0b000011, 0b000011,
            0b000011, 0b000011, 0b111111, 0b000000,
        ],
        4 => [
            0b110011, 0b110011, 0b110011, 0b110011, 0b110011, 0b111111, 0b000011, 0b000011,
            0b000011, 0b000011, 0b000011, 0b000000,
        ],
        5 => [
            0b111111, 0b110000, 0b110000, 0b110000, 0b110000, 0b111111, 0b000011, 0b000011,
            0b000011, 0b000011, 0b111111, 0b000000,
        ],
        6 => [
            0b111111, 0b110000, 0b110000, 0b110000, 0b110000, 0b111111, 0b110011, 0b110011,
            0b110011, 0b110011, 0b111111, 0b000000,
        ],
        7 => [
            0b111111, 0b000011, 0b000011, 0b000011, 0b000110, 0b001100, 0b011000, 0b011000,
            0b011000, 0b011000, 0b011000, 0b000000,
        ],
        8 => [
            0b111111, 0b110011, 0b110011, 0b110011, 0b110011, 0b111111, 0b110011, 0b110011,
            0b110011, 0b110011, 0b111111, 0b000000,
        ],
        _ => [
            0b111111, 0b110011, 0b110011, 0b110011, 0b110011, 0b111111, 0b000011, 0b000011,
            0b000011, 0b000011, 0b111111, 0b000000,
        ],
    };
    assert(rows@ == digit_rows(digit as int));
    rows[row]
}

/// Byte offset of the pixel that column `col` of row `row` of a digit drawn
/// with its top left corner at (x, y) lands on.
pub open spec fn digit_pixel_offset(size: int, x: int, y: int, row: int, col: int) -> int {
    pixel_offset(size, x + col, y + row)
}

/// Byte `k` of a buffer of `len` bytes belongs to a drawn pixel of `digit`
/// that comes, in row-major order, among the first `upto` bitmap positions
/// and lies wholly inside the buffer.
pub open spec fn digit_touches_upto(
    len: int,
    size: int,
    x: int,
    y: int,
    digit: int,
    upto: int,
    k: int,
) -> bool {
    exists|row: int, col: int|
        #[trigger] digit_lit(digit, row, col) && row * 6 + col < upto && digit_pixel_offset(
            size,
            x,
            y,
            row,
            col,
        ) <= k < digit_pixel_offset(size, x, y, row, col) + 4 && digit_pixel_offset(
            size,
            x,
            y,
            row,
            col,
        ) + 3 < len
}

/// Every drawn pixel of `digit` among the first `upto` bitmap positions that
/// lies inside the buffer holds `color`.
pub open spec fn digit_drawn_upto(
    img: Seq<u8>,
    size: int,
    x: int,
    y: int,
    digit: int,
    upto: int,
    color: [u8; 4],
) -> bool {
    forall|row: int, col: int|
        #[trigger] digit_lit(digit, row, col) && row * 6 + col < upto && digit_pixel_offset(
            size,
            x,
            y,
            row,
            col,
        ) + 3 < img.len() ==> pixel_is(img, digit_pixel_offset(size, x, y, row, col), color)
}

/// Bytes that no drawn pixel among the first `upto` positions covers still
/// hold their value from `start`.
pub open spec fn digit_rest_kept(
    img: Seq<u8>,
    start: Seq<u8>,
    size: int,
    x: int,
    y: int,
    digit: int,
    upto: int,
) -> bool {
    forall|k: int|
        0 <= k < start.len() && !digit_touches_upto(start.len() as int, size, x, y, digit, upto, k)
            ==> #[trigger] img[k] == start[k]
}

proof fn lemma_row_offset_bound(y: int, size: int, row: int)
    requires
        0 <= row <= 11,
        0 <= size,
    ensures
        (y + row) * size <= (y + 11) * size,
{
    assert((y + row) * size <= (y + 11) * size) by (nonlinear_arith)
        requires
            0 <= row <= 11,
            0 <= size,
    ;
}

/// One bitmap position of a digit has been handled: written if it is drawn,
/// skipped otherwise.
#[verifier::spinoff_prover]
proof fn lemma_digit_step(
    start: Seq<u8>,
    before: Seq<u8>,
    after: Seq<u8>,
    size: int,
    x: int,
    y: int,
    digit: int,
    row: int,
    col: int,
    color: [u8; 4],
)
    requires
        0 <= row < 12,
        0 <= col < 6,
        0 <= size,
        0 <= x,
        0 <= y,
        before.len() == start.len(),
        digit_drawn_upto(before, size, x, y, digit, row * 6 + col, color),
        digit_rest_kept(before, start, size, x, y, digit, row * 6 + col),
        digit_lit(digit, row, col) ==> pixel_put(
            before,
            after,
            digit_pixel_offset(size, x, y, row, col),
            color,
        ),
        !digit_lit(digit, row, col) ==> after == before,
    ensures
        after.len() == start.len(),
        digit_drawn_upto(after, size, x, y, digit, row * 6 + col + 1, color),
        digit_rest_kept(after, start, size, x, y, digit, row * 6 + col + 1),
{
    let len = start.len() as int;
    let off = digit_pixel_offset(size, x, y, row, col);
    assert forall|r: int, c: int|
        #[trigger] digit_lit(digit, r, c) && r * 6 + c < row * 6 + col + 1 && digit_pixel_offset(
            size,
            x,
            y,
            r,
            c,
        ) + 3 < after.len() implies pixel_is(
        after,
        digit_pixel_offset(size, x, y, r, c),
        color,
    ) by {
        if r == row && c == col {
        } else {
            let o = digit_pixel_offset(size, x, y, r, c);
            assert((y + r) * size >= 0) by (nonlinear_arith)
                requires
                    0 <= y + r,
                    0 <= size,
            ;
            assert(pixel_is(before, o, color));
            if digit_lit(digit, row, col) && o != off {
                assert(after[o] == before[o]);
                assert(after[o + 1] == before[o + 1]);
                assert(after[o + 2] == before[o + 2]);
                assert(after[o + 3] == before[o + 3]);
            }
        }
    }
    assert forall|k: int|
        0 <= k < len && !digit_touches_upto(
            len,
            size,
            x,
            y,
            digit,
            row * 6 + col + 1,
            k,
        ) implies #[trigger] after[k] == start[k] by {
        if digit_touches_upto(len, size, x, y, digit, row * 6 + col, k) {
            let (r, c) = choose|r: int, c: int|
                #[trigger] digit_lit(digit, r, c) && r * 6 + c < row * 6 + col
                    && digit_pixel_offset(size, x, y, r, c) <= k < digit_pixel_offset(
                    size,
                    x,
                    y,
                    r,
                    c,
                ) + 4 && digit_pixel_offset(size, x, y, r, c) + 3 < len;
            assert(digit_lit(digit, r, c));
        }
        if digit_lit(digit, row, col) && off <= k < off + 4 && off + 3 < len {
            assert(digit_lit(digit, row, col));
        }
        assert(before[k] == start[k]);
    }
}

/// Draws `digit` in `color` with its top left corner at (x, y): every pixel
/// set in the digit's 6x12 bitmap is written with `put_pixel`, nothing else
/// changes.
#[verifier::spinoff_prover]
pub fn draw_digit(img: &mut [u8], size: u32, digit: usize, x: u32, y: u32, color: [u8; 4])
    requires
        digit < 10,
        y + 11 <= u32::MAX,
        (y as int + 11) * (size as int) + x + 5 <= 0x3fff_ffff,
    ensures
        final(img)@.len() == old(img)@.len(),
        digit_drawn_upto(final(img)@, size as int, x as int, y as int, digit as int, 72, color),
        digit_rest_kept(final(img)@, old(img)@, size as int, x as int, y as int, digit as int, 72),
{
    let ghost start = img@;
    let mut row: usize = 0;
    while row < 12
        invariant
            row <= 12,
            digit < 10,
            y + 11 <= u32::MAX,
            (y as int + 11) * (size as int) + x + 5 <= 0x3fff_ffff,
            start == old(img)@,
            img@.len() == start.len(),
            digit_drawn_upto(img@, size as int, x as int, y as int, digit as int, row * 6, color),
            digit_rest_kept(img@, start, size as int, x as int, y as int, digit as int, row * 6),
        decreases 12 - row,
    {
        let row_data = digit_row(digit, row);
        let mut col: u32 = 0;
        while col < 6
            invariant
                row < 12,
                col <= 6,
                digit < 10,
                row_data == digit_rows(digit as int)[row as int],
                y + 11 <= u32::MAX,
                (y as int + 11) * (size as int) + x + 5 <= 0x3fff_ffff,
                start == old(img)@,
                img@.len() == start.len(),
                digit_drawn_upto(
                    img@,
                    size as int,
                    x as int,
                    y as int,
                    digit as int,
                    row * 6 + col,
                    color,
                ),
                digit_rest_kept(
                    img@,
                    start,
                    size as int,
                    x as int,
                    y as int,
                    digit as int,
                    row * 6 + col,
                ),
            decreases 6 - col,
        {
            let ghost before = img@;
            if (row_data >> (5 - col)) & 1 == 1 {
                proof {
                    lemma_row_offset_bound(y as int, size as int, row as int);
                }
                put_pixel(img, size, x + col, y + row as u32, color);
            }
            proof {
                lemma_digit_step(
                    start,
                    before,
                    img@,
                    size as int,
                    x as int,
                    y as int,
                    digit as int,
                    row as int,
                    col as int,
                    color,
                );
            }
            col += 1;
        }
        row += 1;
    }
}

// ---------------------------------------------------------------------------
// Number icon
// ---------------------------------------------------------------------------

/// Byte `c` (0 = red .. 3 = alpha) of pixel (px, py) of a 16x16 RGBA icon.
pub open spec fn icon_byte(img: Seq<u8>, px: int, py: int, c: int) -> u8 {
    img[4 * (py * 16 + px) + c]
}

/// The percentage shown by the number icon: the battery percentage brought
/// into 0..=99.
pub open spec fn shown_percent(battery_percent: int) -> int {
    if battery_percent < 0 {
        0
    } else if battery_percent > 99 {
        99
    } else {
        battery_percent
    }
}

/// Pixel (px, py) of the number icon is drawn: two dashes when no level is
/// known, otherwise one digit centred or two digits side by side, all from
/// row 2 down.
pub open spec fn number_icon_lit(state: BatteryStatus, battery_percent: int, px: int, py: int) -> bool {
    if state == BatteryStatus::Unavailable {
        6 <= py < 8 && ((2 <= px < 6) || (10 <= px < 14))
    } else {
        let p = shown_percent(battery_percent);
        if p < 10 {
            digit_lit(p, py - 2, px - 5)
        } else {
            digit_lit(p / 10, py - 2, px) || digit_lit(p % 10, py - 2, px - 8)
        }
    }
}

/// RGBA colour of the drawn pixels of the number icon: the chosen colour if
/// there is one, else green while charging, red at 20% or less, white on a
/// dark theme and black on a light one.
pub open spec fn number_icon_color(
    theme: Theme,
    battery_percent: int,
    state: BatteryStatus,
    icon_color: Option<[u8; 3]>,
) -> Seq<u8> {
    match icon_color {
        Some(c) => seq![c[0], c[1], c[2], 255u8],
        None => if state == BatteryStatus::Charging {
            seq![0u8, 255u8, 0u8, 255u8]
        } else if state == BatteryStatus::Available && battery_percent <= 20 {
            seq![255u8, 0u8, 0u8, 255u8]
        } else if theme == Theme::Dark {
            seq![255u8, 255u8, 255u8, 255u8]
        } else {
            seq![0u8, 0u8, 0u8, 255u8]
        },
    }
}

/// `img` is the number icon for the given state: 16x16 RGBA pixels, row by
/// row, each drawn pixel in the icon colour and every other one transparent
/// black.
pub open spec fn is_number_icon(
    theme: Theme,
    battery_percent: int,
    state: BatteryStatus,
    icon_color: Option<[u8; 3]>,
    img: Seq<u8>,
) -> bool {
    &&& img.len() == 1024
    &&& forall|px: int, py: int, c: int|
        0 <= px < 16 && 0 <= py < 16 && 0 <= c < 4 ==> #[trigger] icon_byte(img, px, py, c)
            == if number_icon_lit(state, battery_percent, px, py) {
            number_icon_color(theme, battery_percent, state, icon_color)[c]
        } else {
            0u8
        }
}

/// Fills the pixels x0 <= x < x1, y0 <= y < y1 of a 16x16 RGBA icon.
#[verifier::spinoff_prover]
fn fill_rect(img: &mut Vec<u8>, x0: u32, x1: u32, y0: u32, y1: u32, color: [u8; 4])
    requires
        old(img)@.len() == 1024,
        x0 <= x1 <= 16,
        y0 <= y1 <= 16,
    ensures
        final(img)@.len() == 1024,
        forall|px: int, py: int, c: int|
            0 <= px < 16 && 0 <= py < 16 && 0 <= c < 4 ==> #[trigger] icon_byte(
                final(img)@,
                px,
                py,
                c,
            ) == if x0 <= px < x1 && y0 <= py < y1 {
                color@[c]
            } else {
                icon_byte(old(img)@, px, py, c)
            },
{
    let ghost start = img@;
    let mut x = x0;
    while x < x1
        invariant
            x0 <= x <= x1 <= 16,
            y0 <= y1 <= 16,
            img@.len() == 1024,
            start == old(img)@,
            forall|px: int, py: int, c: int|
                0 <= px < 16 && 0 <= py < 16 && 0 <= c < 4 ==> #[trigger] icon_byte(
                    img@,
                    px,
                    py,
                    c,
                ) == if x0 <= px < x && y0 <= py < y1 {
                    color@[c]
                } else {
                    icon_byte(start, px, py, c)
                },
        decreases x1 - x,
    {
        let mut y = y0;
        while y < y1
            invariant
                x0 <= x < x1 <= 16,
                y0 <= y <= y1 <= 16,
                img@.len() == 1024,
                start == old(img)@,
                forall|px: int, py: int, c: int|
                    0 <= px < 16 && 0 <= py < 16 && 0 <= c < 4 ==> #[trigger] icon_byte(
                        img@,
                        px,
                        py,
                        c,
                    ) == if (x0 <= px < x && y0 <= py < y1) || (px == x && y0 <= py < y) {
                        color@[c]
                    } else {
                        icon_byte(start, px, py, c)
                    },
            decreases y1 - y,
        {
            let ghost before = img@;
            put_pixel(img.as_mut_slice(), 16, x, y, color);
            assert forall|px: int, py: int, c: int|
                0 <= px < 16 && 0 <= py < 16 && 0 <= c < 4 implies #[trigger] icon_byte(
                    img@,
                    px,
                    py,
                    c,
                ) == if (x0 <= px < x && y0 <= py < y1) || (px == x && y0 <= py < y + 1) {
                    color@[c]
                } else {
                    icon_byte(start, px, py, c)
                } by {
                assert(icon_byte(before, px, py, c) == before[4 * (py * 16 + px) + c]);
                if px == x && py == y {
                } else {
                    assert(img@[4 * (py * 16 + px) + c] == before[4 * (py * 16 + px) + c]);
                }
            }
            y += 1;
        }
        x += 1;
    }
}

/// The only digit position drawn at (x0, 2) whose pixel holds byte `c` of
/// icon pixel (px, py) is the one at (px - x0, py - 2).
proof fn lemma_icon_pixel_unique(r: int, cl: int, x0: int, px: int, py: int, c: int)
    requires
        0 <= cl < 6,
        0 <= x0 <= 10,
        0 <= px < 16,
        0 <= c < 4,
        digit_pixel_offset(16, x0, 2, r, cl) <= 4 * (py * 16 + px) + c < digit_pixel_offset(
            16,
            x0,
            2,
            r,
            cl,
        ) + 4,
    ensures
        r == py - 2,
        cl == px - x0,
{
    assert(digit_pixel_offset(16, x0, 2, r, cl) == 4 * ((2 + r) * 16 + x0 + cl));
    assert((2 + r) * 16 + x0 + cl == py * 16 + px);
}

/// What drawing a digit at (x0, 2) does to each pixel of a 16x16 icon.
#[verifier::spinoff_prover]
proof fn lemma_digit_on_icon(
    before: Seq<u8>,
    after: Seq<u8>,
    digit: int,
    x0: int,
    color: [u8; 4],
    px: int,
    py: int,
    c: int,
)
    requires
        before.len() == 1024,
        after.len() == 1024,
        0 <= x0 <= 10,
        digit_drawn_upto(after, 16, x0, 2, digit, 72, color),
        digit_rest_kept(after, before, 16, x0, 2, digit, 72),
        0 <= px < 16,
        0 <= py < 16,
        0 <= c < 4,
    ensures
        icon_byte(after, px, py, c) == if digit_lit(digit, py - 2, px - x0) {
            color@[c]
        } else {
            icon_byte(before, px, py, c)
        },
{
    let k = 4 * (py * 16 + px) + c;
    if digit_lit(digit, py - 2, px - x0) {
        assert(digit_pixel_offset(16, x0, 2, py - 2, px - x0) == 4 * (py * 16 + px));
        assert(pixel_is(after, 4 * (py * 16 + px), color));
    } else {
        if digit_touches_upto(1024, 16, x0, 2, digit, 72, k) {
            let (r, cl) = choose|r: int, cl: int|
                #[trigger] digit_lit(digit, r, cl) && r * 6 + cl < 72 && digit_pixel_offset(
                    16,
                    x0,
                    2,
                    r,
                    cl,
                ) <= k < digit_pixel_offset(16, x0, 2, r, cl) + 4 && digit_pixel_offset(
                    16,
                    x0,
                    2,
                    r,
                    cl,
                ) + 3 < 1024;
            lemma_icon_pixel_unique(r, cl, x0, px, py, c);
            assert(false);
        }
        assert(after[k] == before[k]);
    }
}

/// The 16x16 RGBA icon (1024 bytes, row by row) that shows the battery
/// percentage as a number: two dashes when the level is unavailable, else the
/// percentage brought into 0..=99 in the digits of `draw_digit`, drawn in the
/// colour of `number_icon_color` on a transparent background.
#[verifier::spinoff_prover]
pub fn generate_number_icon(
    theme: Theme,
    battery_percent: isize,
    state: BatteryStatus,
    icon_color: Option<[u8; 3]>,
) -> (img: Vec<u8>)
    ensures
        is_number_icon(theme, battery_percent as int, state, icon_color, img@),
{
    let size: u32 = 16;
    let mut img: Vec<u8> = vec![0u8; (size * size * 4) as usize];
    let ghost blank = img@;
    assert forall|px: int, py: int, c: int|
        0 <= px < 16 && 0 <= py < 16 && 0 <= c < 4 implies #[trigger] icon_byte(blank, px, py, c)
        == 0u8 by {
        assert(blank[4 * (py * 16 + px) + c] == 0u8);
    }
    let color: [u8; 4] = match icon_color {
        Some(c) => [c[0], c[1], c[2], 255],
        None => {
            if state == BatteryStatus::Charging {
                [0, 255, 0, 255]
            } else if state == BatteryStatus::Available && battery_percent <= 20 {
                [255, 0, 0, 255]
            } else if theme == Theme::Dark {
                [255, 255, 255, 255]
            } else {
                [0, 0, 0, 255]
            }
        },
    };
    assert(color@ == number_icon_color(theme, battery_percent as int, state, icon_color));
    if state == BatteryStatus::Unavailable {
        fill_rect(&mut img, 2, 6, 6, 8, color);
        fill_rect(&mut img, 10, 14, 6, 8, color);
    } else {
        let percent: isize = if battery_percent < 0 {
            0
        } else if battery_percent > 99 {
            99
        } else {
            battery_percent
        };
        if percent < 10 {
            let ghost before = img@;
            draw_digit(img.as_mut_slice(), size, percent as usize, 5, 2, color);
            assert forall|px: int, py: int, c: int|
                0 <= px < 16 && 0 <= py < 16 && 0 <= c < 4 implies #[trigger] icon_byte(
                    img@,
                    px,
                    py,
                    c,
                ) == if number_icon_lit(state, battery_percent as int, px, py) {
                    number_icon_color(theme, battery_percent as int, state, icon_color)[c]
                } else {
                    0u8
                } by {
                lemma_digit_on_icon(before, img@, percent as int, 5, color, px, py, c);
            }
        } else {
            let tens = (percent / 10) as usize;
            let ones = (percent % 10) as usize;
            let ghost before = img@;
            draw_digit(img.as_mut_slice(), size, tens, 0, 2, color);
            let ghost middle = img@;
            draw_digit(img.as_mut_slice(), size, ones, 8, 2, color);
            assert forall|px: int, py: int, c: int|
                0 <= px < 16 && 0 <= py < 16 && 0 <= c < 4 implies #[trigger] icon_byte(
                    img@,
                    px,
                    py,
                    c,
                ) == if number_icon_lit(state, battery_percent as int, px, py) {
                    number_icon_color(theme, battery_percent as int, state, icon_color)[c]
                } else {
                    0u8
                } by {
                lemma_digit_on_icon(before, middle, tens as int, 0, color, px, py, c);
                lemma_digit_on_icon(middle, img@, ones as int, 8, color, px, py, c);
            }
        }
    }
    img
}

} // verus!
