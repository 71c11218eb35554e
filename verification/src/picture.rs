//! What is on the screen: the picture that the dashboard's drawing leaves on the panel.
use crate::controls::NO_CC;
use crate::dashboard::{
    bar_width, bar_x, button_steps, cc_steps, dashboard_steps, frame_steps, init_steps, tile_x,
    tiles_steps, COLORS,
};
use crate::lcd::{clear_steps, rect_steps};
use crate::panel::{clear_paints, rect_paints, run_concat, Panel};
use vstd::prelude::*;

verus! {

/// Whether a position lies in a rectangle.
pub open spec fn within(x: int, y: int, left: int, top: int, w: int, h: int) -> bool {
    left <= x < left + w && top <= y < top + h
}

/// Whether a position lies on the tile of a button.
pub open spec fn on_tile(index: int, x: int, y: int) -> bool {
    within(x, y, tile_x(index), 16, 17, 58)
}

/// The colour of a position on the tile of a button.
pub open spec fn tile_color(index: int, pressed: bool, x: int, y: int) -> u16 {
    if pressed {
        COLORS[index]
    } else if within(x, y, tile_x(index) + 3, 19, 11, 52) {
        0x8410
    } else {
        0x39E7
    }
}

/// Whether a position lies in the area that holds the bar.
pub open spec fn on_bar_area(x: int, y: int) -> bool {
    within(x, y, 0, 88, 120, 28)
}

/// The colour of a position in the area that holds the bar.
pub open spec fn bar_color(cc: u8, x: int, y: int) -> u16 {
    if within(x, y, bar_x(cc), 97, bar_width(cc), 12) {
        0x07E0
    } else if within(x, y, 14, 94, 100, 18) {
        0x18E3
    } else {
        0x0000
    }
}

/// Whether a position lies on the frame around the dashboard.
pub open spec fn on_frame(x: int, y: int) -> bool {
    within(x, y, 4, 4, 116, 116) && !within(x, y, 5, 5, 114, 114)
}

/// The colour of a visible position when the dashboard shows these button states and
/// this value. The area of the bar interrupts the frame.
pub open spec fn picture(buttons: Seq<bool>, cc: u8, x: int, y: int) -> u16 {
    if on_bar_area(x, y) {
        bar_color(cc, x, y)
    } else if on_tile(0, x, y) {
        tile_color(0, buttons[0], x, y)
    } else if on_tile(1, x, y) {
        tile_color(1, buttons[1], x, y)
    } else if on_tile(2, x, y) {
        tile_color(2, buttons[2], x, y)
    } else if on_tile(3, x, y) {
        tile_color(3, buttons[3], x, y)
    } else if on_frame(x, y) {
        0x4208
    } else {
        0x0000
    }
}

/// Whether the visible area of a panel shows the dashboard for these button states and
/// this value, at every position.
pub open spec fn shows(panel: Panel, buttons: Seq<bool>, cc: u8) -> bool {
    forall|x: int, y: int|
        0 <= x < 128 && 0 <= y < 128 ==> #[trigger] panel.visible(x, y) == picture(
            buttons,
            cc,
            x,
            y,
        )
}

/// Drawing a tile changes the positions on that tile, whatever was there, and no other.
pub proof fn draw_button_paints(panel: Panel, index: u8, pressed: bool)
    requires
        index < 4,
    ensures
        forall|x: int, y: int|
            0 <= x < 128 && 0 <= y < 128 ==> #[trigger] panel.run(
                button_steps(index, pressed),
            ).visible(x, y) == if on_tile(index as int, x, y) {
                tile_color(index as int, pressed, x, y)
            } else {
                panel.visible(x, y)
            },
{
    let left = tile_x(index as int) as u8;
    if pressed {
        rect_paints(panel, left, 16, 17, 58, COLORS[index as int]);
    } else {
        let outer = rect_steps(left, 16, 17, 58, 0x39E7);
        let inner = rect_steps((left + 3) as u8, 19, 11, 52, 0x8410);
        run_concat(panel, outer, inner);
        rect_paints(panel, left, 16, 17, 58, 0x39E7);
        rect_paints(panel.run(outer), (left + 3) as u8, 19, 11, 52, 0x8410);
    }
}

/// Drawing the bar changes the positions of its area, whatever was there, and no other.
pub proof fn draw_cc_paints(panel: Panel, cc: u8)
    ensures
        forall|x: int, y: int|
            0 <= x < 128 && 0 <= y < 128 ==> #[trigger] panel.run(cc_steps(cc)).visible(x, y)
                == if on_bar_area(x, y) {
                bar_color(cc, x, y)
            } else {
                panel.visible(x, y)
            },
{
    let area = rect_steps(0, 88, 120, 28, 0x0000);
    let trough = rect_steps(14, 94, 100, 18, 0x18E3);
    let bar = if bar_width(cc) > 0 {
        rect_steps(bar_x(cc) as u8, 97, bar_width(cc) as u8, 12, 0x07E0)
    } else {
        seq![]
    };
    run_concat(panel, area + trough, bar);
    run_concat(panel, area, trough);
    rect_paints(panel, 0, 88, 120, 28, 0x0000);
    rect_paints(panel.run(area), 14, 94, 100, 18, 0x18E3);
    rect_paints(
        panel.run(area).run(trough),
        bar_x(cc) as u8,
        97,
        bar_width(cc) as u8,
        12,
        0x07E0,
    );
}

proof fn lemma_frame(panel: Panel)
    ensures
        forall|x: int, y: int|
            0 <= x < 128 && 0 <= y < 128 ==> #[trigger] panel.run(frame_steps()).visible(x, y)
                == if on_frame(x, y) {
                0x4208
            } else {
                panel.visible(x, y)
            },
{
    let top = rect_steps(4, 4, 116, 1, 0x4208);
    let bottom = rect_steps(4, 119, 116, 1, 0x4208);
    let left = rect_steps(4, 4, 1, 116, 0x4208);
    let right = rect_steps(119, 4, 1, 116, 0x4208);
    run_concat(panel, top + bottom + left, right);
    run_concat(panel, top + bottom, left);
    run_concat(panel, top, bottom);
    let p1 = panel.run(top);
    let p2 = p1.run(bottom);
    let p3 = p2.run(left);
    rect_paints(panel, 4, 4, 116, 1, 0x4208);
    rect_paints(p1, 4, 119, 116, 1, 0x4208);
    rect_paints(p2, 4, 4, 1, 116, 0x4208);
    rect_paints(p3, 119, 4, 1, 116, 0x4208);
}

proof fn lemma_tiles(panel: Panel, buttons: Seq<bool>)
    ensures
        forall|x: int, y: int|
            0 <= x < 128 && 0 <= y < 128 ==> #[trigger] panel.run(
                tiles_steps(buttons, 4),
            ).visible(x, y) == if on_tile(0, x, y) {
                tile_color(0, buttons[0], x, y)
            } else if on_tile(1, x, y) {
                tile_color(1, buttons[1], x, y)
            } else if on_tile(2, x, y) {
                tile_color(2, buttons[2], x, y)
            } else if on_tile(3, x, y) {
                tile_color(3, buttons[3], x, y)
            } else {
                panel.visible(x, y)
            },
{
    reveal_with_fuel(tiles_steps, 5);
    run_concat(panel, tiles_steps(buttons, 3), button_steps(3, buttons[3]));
    run_concat(panel, tiles_steps(buttons, 2), button_steps(2, buttons[2]));
    run_concat(panel, tiles_steps(buttons, 1), button_steps(1, buttons[1]));
    run_concat(panel, tiles_steps(buttons, 0), button_steps(0, buttons[0]));
    let p0 = panel.run(tiles_steps(buttons, 0));
    assert(p0 == panel);
    let p1 = panel.run(tiles_steps(buttons, 1));
    let p2 = panel.run(tiles_steps(buttons, 2));
    let p3 = panel.run(tiles_steps(buttons, 3));
    draw_button_paints(p0, 0, buttons[0]);
    draw_button_paints(p1, 1, buttons[1]);
    draw_button_paints(p2, 2, buttons[2]);
    draw_button_paints(p3, 3, buttons[3]);
}

/// Drawing the dashboard settles every visible position, whatever was there before.
pub proof fn dashboard_shows(panel: Panel, buttons: Seq<bool>, cc: u8)
    ensures
        shows(panel.run(dashboard_steps(buttons, cc)), buttons, cc),
{
    let clear = clear_steps(0x0000);
    let frame = frame_steps();
    let tiles = tiles_steps(buttons, 4);
    run_concat(panel, clear + frame + tiles, cc_steps(cc));
    run_concat(panel, clear + frame, tiles);
    run_concat(panel, clear, frame);
    let p1 = panel.run(clear);
    let p2 = p1.run(frame);
    let p3 = p2.run(tiles);
    clear_paints(panel, 0x0000);
    lemma_frame(p1);
    lemma_tiles(p2, buttons);
    draw_cc_paints(p3, cc);
    let after = p3.run(cc_steps(cc));
    assert forall|x: int, y: int| 0 <= x < 128 && 0 <= y < 128 implies #[trigger] after.visible(
        x,
        y,
    ) == picture(buttons, cc, x, y) by {
        assert(p1.visible(x, y) == 0x0000);
        assert(p2.visible(x, y) == if on_frame(x, y) {
            0x4208
        } else {
            p1.visible(x, y)
        });
        assert(p3.visible(x, y) == p2.run(tiles).visible(x, y));
    }
}

/// Redrawing one tile on a panel that shows the dashboard is as good as drawing the
/// dashboard anew with that button's state.
pub proof fn draw_button_updates(
    panel: Panel,
    buttons: Seq<bool>,
    cc: u8,
    index: u8,
    pressed: bool,
)
    requires
        buttons.len() == 4,
        index < 4,
        shows(panel, buttons, cc),
    ensures
        shows(
            panel.run(button_steps(index, pressed)),
            buttons.update(index as int, pressed),
            cc,
        ),
{
    draw_button_paints(panel, index, pressed);
}

/// Redrawing the bar on a panel that shows the dashboard is as good as drawing the
/// dashboard anew with that value.
pub proof fn draw_cc_updates(panel: Panel, buttons: Seq<bool>, cc: u8, new_cc: u8)
    requires
        shows(panel, buttons, cc),
    ensures
        shows(panel.run(cc_steps(new_cc)), buttons, new_cc),
{
    draw_cc_paints(panel, new_cc);
}

/// Bringing the panel up leaves the visible area black.
pub proof fn init_blackens(panel: Panel, x: int, y: int)
    requires
        0 <= x < 128,
        0 <= y < 128,
    ensures
        panel.run(init_steps()).visible(x, y) == 0x0000,
{
    let clear = clear_steps(0x0000);
    let all = init_steps();
    let setup = all.take(all.len() - clear.len());
    assert(all =~= setup + clear);
    run_concat(panel, setup, clear);
    clear_paints(panel.run(setup), 0x0000);
}

/// The bar of a value that a distance gives lies in the trough, between columns 16 and 111,
/// and always ends at the latter; the highest value takes all of them, the lowest none.
pub proof fn bar_fits_trough(cc: u8)
    requires
        cc <= 127,
    ensures
        16 <= bar_x(cc),
        bar_x(cc) + bar_width(cc) == 112,
        0 <= bar_width(cc) <= 96,
        cc == 0 ==> bar_width(cc) == 0,
        cc == 127 ==> bar_width(cc) == 96,
{
}

/// The bar of a value has its left edge at a byte that plain arithmetic gives exactly if the
/// value is at most 128.
pub proof fn bar_position_is_plain_up_to_128(cc: u8)
    ensures
        cc <= 128 <==> 0 <= 96 - bar_width(cc),
        cc <= 128 ==> bar_x(cc) == 16 + (96 - bar_width(cc)),
        0 <= bar_x(cc) <= u8::MAX,
{
}

/// A higher value has a bar that is at least as long.
pub proof fn bar_grows(low: u8, high: u8)
    requires
        low <= high,
    ensures
        bar_width(low) <= bar_width(high),
{
}

/// As long as there is no value, the trough is empty.
pub proof fn no_value_no_bar(x: int, y: int)
    requires
        0 <= x < 128,
        0 <= y < 128,
    ensures
        bar_color(NO_CC, x, y) != 0x07E0,
{
}

/// On the screen the length of the bar is proportional to the value. For every value there
/// is a number `n` of whole columns with `n * 127 <= cc * 96 < (n + 1) * 127`, and after the
/// bar has been drawn exactly the columns from `112 - n` up to 111 are green, in rows 97 to
/// 108; none is if `n` is above 112. The trough is around them, black around the trough, and
/// nothing else has changed.
pub proof fn bar_on_the_screen(panel: Panel, cc: u8) -> (n: int)
    ensures
        n * 127 <= cc * 96 < (n + 1) * 127,
        forall|x: int, y: int|
            0 <= x < 128 && 0 <= y < 128 ==> #[trigger] panel.run(cc_steps(cc)).visible(x, y)
                == if n <= 112 && 112 - n <= x < 112 && 97 <= y < 109 {
                0x07E0
            } else if 14 <= x < 114 && 94 <= y < 112 {
                0x18E3
            } else if x < 120 && 88 <= y < 116 {
                0x0000
            } else {
                panel.visible(x, y)
            },
{
    draw_cc_paints(panel, cc);
    bar_width(cc)
}

/// On the screen the tile of a button covers the columns from `18 + 26 * index` on, 17 of
/// them, in rows 16 to 73. Held, it is red, green, blue or yellow; not held, it is grey, and
/// lighter but for a margin of three pixels. Nothing else changes. A tile beyond the fourth,
/// of a button that is not held, is cut off or left out at the edge.
pub proof fn tile_on_the_screen(panel: Panel, index: u8, pressed: bool)
    requires
        index < 10,
        pressed ==> index < 4,
    ensures
        forall|x: int, y: int|
            0 <= x < 128 && 0 <= y < 128 ==> #[trigger] panel.run(
                button_steps(index, pressed),
            ).visible(x, y) == if 18 + 26 * index <= x < 35 + 26 * index && 16 <= y < 74 {
                if pressed {
                    seq![0xF800u16, 0x07E0u16, 0x001Fu16, 0xFFE0u16][index as int]
                } else if 21 + 26 * index <= x < 32 + 26 * index && 19 <= y < 71 {
                    0x8410
                } else {
                    0x39E7
                }
            } else {
                panel.visible(x, y)
            },
{
    if pressed {
        draw_button_paints(panel, index, pressed);
    } else {
        let left = (18 + 26 * index) as u8;
        let outer = rect_steps(left, 16, 17, 58, 0x39E7);
        let inner = rect_steps((left + 3) as u8, 19, 11, 52, 0x8410);
        run_concat(panel, outer, inner);
        rect_paints(panel, left, 16, 17, 58, 0x39E7);
        rect_paints(panel.run(outer), (left + 3) as u8, 19, 11, 52, 0x8410);
    }
}

/// The whole screen after a dashboard has been drawn, whatever was there before: the bar for
/// the value in its area, the four tiles for the button states, the frame, and black.
pub proof fn dashboard_on_the_screen(panel: Panel, buttons: Seq<bool>, cc: u8) -> (n: int)
    requires
        buttons.len() == 4,
    ensures
        n * 127 <= cc * 96 < (n + 1) * 127,
        forall|x: int, y: int|
            0 <= x < 128 && 0 <= y < 128 ==> #[trigger] panel.run(
                dashboard_steps(buttons, cc),
            ).visible(x, y) == if x < 120 && 88 <= y < 116 {
                if n <= 112 && 112 - n <= x < 112 && 97 <= y < 109 {
                    0x07E0
                } else if 14 <= x < 114 && 94 <= y < 112 {
                    0x18E3
                } else {
                    0x0000
                }
            } else if 16 <= y < 74 && 18 <= x < 122 && (x - 18) % 26 < 17 {
                if buttons[(x - 18) / 26] {
                    seq![0xF800u16, 0x07E0u16, 0x001Fu16, 0xFFE0u16][(x - 18) / 26]
                } else if 19 <= y < 71 && 3 <= (x - 18) % 26 < 14 {
                    0x8410
                } else {
                    0x39E7
                }
            } else if (x == 4 || x == 119) && 4 <= y <= 119 || (y == 4 || y == 119) && 4 <= x
                <= 119 {
                0x4208
            } else {
                0x0000
            },
{
    dashboard_shows(panel, buttons, cc);
    bar_width(cc)
}

/// The picture tells the button states: two dashboards with different states differ.
pub proof fn picture_tells_the_buttons(a: Seq<bool>, b: Seq<bool>, cc: u8, index: int)
    requires
        0 <= index < 4,
        a[index] != b[index],
    ensures
        picture(a, cc, 18 + 26 * index, 16) != picture(b, cc, 18 + 26 * index, 16),
{
}

} // verus!
