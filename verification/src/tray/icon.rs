//! The tray icon, drawn from the state.

use vstd::prelude::*;

use crate::device::protocol::LOW_BATTERY_THRESHOLD;
use crate::tray::AppState;

verus! {

/// Width and height of the icon in pixels.
pub const ICON_SIZE: u32 = 32;

/// A pixel.
#[derive(Debug, Clone, Copy, PartialEq, Eq, Structural)]
pub struct Rgba {
    pub r: u8,
    pub g: u8,
    pub b: u8,
    pub a: u8,
}

/// A pixel that shows nothing.
pub open spec fn clear() -> Rgba {
    Rgba { r: 0, g: 0, b: 0, a: 0 }
}

/// The colour of the disc: grey without the dongle, orange with the dongle but without the
/// headset, teal with the headset.
pub open spec fn disc_colour(state: AppState) -> Rgba {
    if !state.device_open {
        Rgba { r: 0x80, g: 0x80, b: 0x80, a: 0xff }
    } else if !state.headset_connected {
        Rgba { r: 0xff, g: 0x8c, b: 0x00, a: 0xff }
    } else {
        Rgba { r: 0x00, g: 0xb4, b: 0xd8, a: 0xff }
    }
}

/// The colour of the dot that shows a muted microphone.
pub open spec fn dot_colour() -> Rgba {
    Rgba { r: 0xff, g: 0x20, b: 0x20, a: 0xff }
}

/// The colour of the battery bar: green above half, yellow above the low battery threshold, red
/// below.
pub open spec fn bar_colour(percent: u8) -> Rgba {
    if percent > 50 {
        Rgba { r: 0x40, g: 0xc0, b: 0x40, a: 0xff }
    } else if percent > LOW_BATTERY_THRESHOLD {
        Rgba { r: 0xe0, g: 0xc0, b: 0x20, a: 0xff }
    } else {
        Rgba { r: 0xe0, g: 0x30, b: 0x30, a: 0xff }
    }
}

/// The pixel at (x, y) is at most `radius` away from (cx, cy).
pub open spec fn within(x: int, y: int, cx: int, cy: int, radius: int) -> bool {
    (x - cx) * (x - cx) + (y - cy) * (y - cy) <= radius * radius
}

/// The width of the battery bar: the share of the charge in the 28 pixels between the margins.
pub open spec fn bar_width(percent: u8) -> int {
    percent as int * 28 / 100
}

/// Pixel number `n`, counted row by row, belongs to the part of the battery bar that starts in
/// row `row`.
pub open spec fn in_bar_row(n: int, row: int, width: int) -> bool {
    row * ICON_SIZE + 2 <= n < row * ICON_SIZE + 2 + width
}

/// Pixel number `n` belongs to the battery bar, four rows that end two rows above the bottom.
pub open spec fn in_bar(n: int, percent: u8) -> bool {
    exists|row: int| 26 <= row < 30 && #[trigger] in_bar_row(n, row, bar_width(percent))
}

/// The colour of pixel number `n`, counted row by row: the battery bar lies over the dot for a
/// muted microphone in the upper right corner, which lies over the disc.
pub open spec fn pixel(state: AppState, n: int) -> Rgba {
    let x = n % ICON_SIZE as int;
    let y = n / ICON_SIZE as int;
    if state.device_open && in_bar(n, state.battery_percent) {
        bar_colour(state.battery_percent)
    } else if state.last_mic_up == Some(true) && within(x, y, 26, 6, 4) {
        dot_colour()
    } else if within(x, y, 16, 16, 14) {
        disc_colour(state)
    } else {
        clear()
    }
}

/// The four bytes of a pixel.
pub open spec fn holds_pixel(bytes: Seq<u8>, n: int, p: Rgba) -> bool {
    &&& bytes[4 * n] == p.r
    &&& bytes[4 * n + 1] == p.g
    &&& bytes[4 * n + 2] == p.b
    &&& bytes[4 * n + 3] == p.a
}

fn near(x: u32, y: u32, cx: u32, cy: u32, radius: u32) -> (r: bool)
    requires
        x < 32,
        y < 32,
        cx < 32,
        cy < 32,
        radius < 32,
    ensures
        r == within(x as int, y as int, cx as int, cy as int, radius as int),
{
    let dx: u32 = if x >= cx { x - cx } else { cx - x };
    let dy: u32 = if y >= cy { y - cy } else { cy - y };
    assert(dx * dx <= 1024) by (nonlinear_arith)
        requires
            dx < 32,
    ;
    assert(dy * dy <= 1024) by (nonlinear_arith)
        requires
            dy < 32,
    ;
    assert(radius * radius <= 1024) by (nonlinear_arith)
        requires
            radius < 32,
    ;
    assert(dx * dx == (x - cx) * (x - cx)) by (nonlinear_arith)
        requires
            dx == x - cx || dx == cx - x,
    ;
    assert(dy * dy == (y - cy) * (y - cy)) by (nonlinear_arith)
        requires
            dy == y - cy || dy == cy - y,
    ;
    dx * dx + dy * dy <= radius * radius
}

fn on_bar(n: u32, percent: u8) -> (r: bool)
    requires
        n < 1024,
    ensures
        r == in_bar(n as int, percent),
{
    let width: u32 = percent as u32 * 28 / 100;
    for row in 26u32..30u32
        invariant
            width == bar_width(percent),
            width <= 71,
            forall|j: int| 26 <= j < row ==> !#[trigger] in_bar_row(n as int, j, width as int),
    {
        let start: u32 = row * ICON_SIZE + 2;
        if start <= n && n < start + width {
            assert(in_bar_row(n as int, row as int, width as int));
            return true;
        }
    }
    false
}

fn colour_of(state: &AppState, n: u32) -> (r: Rgba)
    requires
        n < 1024,
    ensures
        r == pixel(*state, n as int),
{
    let x: u32 = n % ICON_SIZE;
    let y: u32 = n / ICON_SIZE;
    let muted = match state.last_mic_up {
        Some(up) => up,
        None => false,
    };
    if state.device_open && on_bar(n, state.battery_percent) {
        if state.battery_percent > 50 {
            Rgba { r: 0x40, g: 0xc0, b: 0x40, a: 0xff }
        } else if state.battery_percent > LOW_BATTERY_THRESHOLD {
            Rgba { r: 0xe0, g: 0xc0, b: 0x20, a: 0xff }
        } else {
            Rgba { r: 0xe0, g: 0x30, b: 0x30, a: 0xff }
        }
    } else if muted && near(x, y, 26, 6, 4) {
        Rgba { r: 0xff, g: 0x20, b: 0x20, a: 0xff }
    } else if near(x, y, 16, 16, 14) {
        if !state.device_open {
            Rgba { r: 0x80, g: 0x80, b: 0x80, a: 0xff }
        } else if !state.headset_connected {
            Rgba { r: 0xff, g: 0x8c, b: 0x00, a: 0xff }
        } else {
            Rgba { r: 0x00, g: 0xb4, b: 0xd8, a: 0xff }
        }
    } else {
        Rgba { r: 0, g: 0, b: 0, a: 0 }
    }
}

/// Draws the icon: four bytes (red, green, blue, opacity) for each pixel, row by row.
pub fn generate_icon(state: &AppState) -> (r: Vec<u8>)
    ensures
        r@.len() == 4 * ICON_SIZE * ICON_SIZE,
        forall|n: int|
            0 <= n < ICON_SIZE * ICON_SIZE ==> holds_pixel(r@, n, #[trigger] pixel(*state, n)),
{
    let mut r: Vec<u8> = Vec::new();
    for i in 0u32..1024u32
        invariant
            r@.len() == 4 * i,
            forall|n: int| 0 <= n < i ==> holds_pixel(r@, n, #[trigger] pixel(*state, n)),
    {
        let p = colour_of(state, i);
        r.push(p.r);
        r.push(p.g);
        r.push(p.b);
        r.push(p.a);
    }
    r
}

/// The icon tells its three states apart: its middle is grey without the dongle, orange with the
/// dongle but without the headset, and teal with the headset, whatever else is drawn.
pub proof fn the_middle_shows_the_connection(state: AppState)
    ensures
        pixel(state, 528) == disc_colour(state),
{
    assert(within(16, 16, 16, 16, 14)) by (nonlinear_arith);
    assert(!within(16, 16, 26, 6, 4)) by (nonlinear_arith);
    assert forall|row: int| 26 <= row < 30 implies !#[trigger] in_bar_row(
        528,
        row,
        bar_width(state.battery_percent),
    ) by {
    }
}

/// The battery bar grows with the charge, from nothing to the whole width.
pub proof fn the_bar_grows_with_the_charge(a: u8, b: u8)
    requires
        a <= b <= 100,
    ensures
        0 <= bar_width(a) <= bar_width(b) <= 28,
        bar_width(0) == 0,
        bar_width(100) == 28,
{
}

/// The icon of a device that is not open does not depend on the battery or on whether the headset
/// was connected.
pub proof fn closed_devices_have_one_icon(a: AppState, b: AppState, n: int)
    requires
        !a.device_open,
        !b.device_open,
        a.last_mic_up == Some(true) <==> b.last_mic_up == Some(true),
    ensures
        pixel(a, n) == pixel(b, n),
{
}

/// The battery bar of an open device covers, in four rows near the lower edge, 28 pixels' worth of
/// the level in per cent, and shows by its colour whether that is above a half, above a fifth or
/// less. Nothing else of the state changes it.
pub proof fn the_bar_shows_the_level(state: AppState, row: int, x: int)
    requires
        state.device_open,
        26 <= row < 30,
        0 <= x < 32,
        state.battery_percent <= 100,
    ensures
        ({
            let level = state.battery_percent;
            let colour = if level > 50 {
                Rgba { r: 0x40, g: 0xc0, b: 0x40, a: 0xff }
            } else if level > 20 {
                Rgba { r: 0xe0, g: 0xc0, b: 0x20, a: 0xff }
            } else {
                Rgba { r: 0xe0, g: 0x30, b: 0x30, a: 0xff }
            };
            &&& in_bar(row * 32 + x, level) <==> x >= 2 && 100 * (x - 1) <= 28 * level
            &&& in_bar(row * 32 + x, level) ==> pixel(state, row * 32 + x) == colour
        }),
{
    let n = row * 32 + x;
    let width = bar_width(state.battery_percent);
    assert(0 <= width <= 28);
    if x >= 2 && 100 * (x - 1) <= 28 * state.battery_percent {
        assert(x - 2 < width);
        assert(in_bar_row(n, row, width));
    }
    if in_bar(n, state.battery_percent) {
        let other = choose|other: int| 26 <= other < 30 && #[trigger] in_bar_row(n, other, width);
        assert(other == row);
        assert(x - 2 < width);
    }
}

/// Outside those rows there is no bar.
pub proof fn the_bar_keeps_to_its_rows(percent: u8, row: int, x: int)
    requires
        percent <= 100,
        0 <= row < 26 || 30 <= row < 32,
        0 <= x < 32,
    ensures
        !in_bar(row * 32 + x, percent),
{
    let n = row * 32 + x;
    if in_bar(n, percent) {
        let other = choose|other: int|
            26 <= other < 30 && #[trigger] in_bar_row(n, other, bar_width(percent));
        assert(other * 32 <= n < other * 32 + 32);
        assert(other == row);
    }
}

/// Raising the microphone puts a red dot on the icon and leaves the rest of it as it is.
pub proof fn muting_shows_a_dot(state: AppState, x: int, y: int)
    requires
        0 <= x < 32,
        0 <= y < 26,
        state.battery_percent <= 100,
    ensures
        ({
            let muted = AppState { last_mic_up: Some(true), ..state };
            let active = AppState { last_mic_up: Some(false), ..state };
            let unseen = AppState { last_mic_up: None, ..state };
            let n = 32 * y + x;
            let dot = (x - 26) * (x - 26) + (y - 6) * (y - 6) <= 16;
            &&& dot ==> pixel(muted, n) == (Rgba { r: 0xff, g: 0x20, b: 0x20, a: 0xff })
            &&& !dot ==> pixel(muted, n) == pixel(active, n)
            &&& pixel(active, n) == pixel(unseen, n)
        }),
{
    let n = 32 * y + x;
    assert(n == y * 32 + x);
    assert(n % 32 == x && n / 32 == y);
    the_bar_keeps_to_its_rows(state.battery_percent, y, x);
}

/// The disc is grey without a device, orange with a device but no headset, and blue with both, and
/// what is neither bar, dot nor disc is clear, whatever the state.
pub proof fn the_disc_shows_the_connection(state: AppState, x: int, y: int)
    requires
        0 <= x < 32,
        0 <= y < 32,
        state.battery_percent <= 100,
        state.device_open && 26 <= y < 30 && x >= 2 ==> 100 * (x - 1) > 28 * state.battery_percent,
        state.last_mic_up == Some(true) ==> (x - 26) * (x - 26) + (y - 6) * (y - 6) > 16,
    ensures
        ({
            let colour = if !state.device_open {
                Rgba { r: 0x80, g: 0x80, b: 0x80, a: 0xff }
            } else if !state.headset_connected {
                Rgba { r: 0xff, g: 0x8c, b: 0x00, a: 0xff }
            } else {
                Rgba { r: 0x00, g: 0xb4, b: 0xd8, a: 0xff }
            };
            pixel(state, 32 * y + x) == if (x - 16) * (x - 16) + (y - 16) * (y - 16) <= 196 {
                colour
            } else {
                Rgba { r: 0, g: 0, b: 0, a: 0 }
            }
        }),
{
    let n = 32 * y + x;
    assert(n == y * 32 + x);
    assert(n % 32 == x && n / 32 == y);
    if state.device_open && 26 <= y < 30 {
        the_bar_shows_the_level(state, y, x);
    } else if state.device_open {
        the_bar_keeps_to_its_rows(state.battery_percent, y, x);
    }
}

} // verus!
