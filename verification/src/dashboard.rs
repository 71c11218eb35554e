//! What the controller shows: four button tiles over a bar for the distance value.
use crate::lcd::{
    clear_steps, command_steps, command_with_data_steps, rect_steps, BusStep, Display, LcdOp,
};
use vstd::prelude::*;

verus! {

/// The colours of the four button tiles while their buttons are held.
pub const COLORS: [u16; 4] = [0xF800, 0x07E0, 0x001F, 0xFFE0];

/// The left edge of the tile of a button.
pub open spec fn tile_x(index: int) -> int {
    18 + 26 * index
}

/// Draws the tile of a button: one plain area while it is held, a frame around a
/// lighter area while it is not.
pub open spec fn button_steps(index: u8, pressed: bool) -> Seq<BusStep> {
    let x = tile_x(index as int);
    if pressed {
        rect_steps(x as u8, 16, 17, 58, COLORS[index as int])
    } else {
        rect_steps(x as u8, 16, 17, 58, 0x39E7) + rect_steps((x + 3) as u8, 19, 11, 52, 0x8410)
    }
}

/// The width of the bar for a value, 96 pixels for 127.
pub open spec fn bar_width(cc: u8) -> int {
    cc * 96 / 127
}

/// The left edge of the bar for a value. The bar grows to the left from column 111; with up
/// to 96 pixels it stays in the trough. The edge of a wider one is a byte that wraps around:
/// below zero it comes back to the right of the visible area.
pub open spec fn bar_x(cc: u8) -> int {
    if bar_width(cc) <= 96 {
        16 + (96 - bar_width(cc))
    } else {
        (112 - bar_width(cc)) % 256
    }
}

/// Draws the bar: a black area, the trough, and the bar itself unless it is empty.
pub open spec fn cc_steps(cc: u8) -> Seq<BusStep> {
    rect_steps(0, 88, 120, 28, 0x0000) + rect_steps(14, 94, 100, 18, 0x18E3) + (if bar_width(cc)
        > 0 {
        rect_steps(bar_x(cc) as u8, 97, bar_width(cc) as u8, 12, 0x07E0)
    } else {
        seq![]
    })
}

/// Draws the frame around the dashboard.
pub open spec fn frame_steps() -> Seq<BusStep> {
    rect_steps(4, 4, 116, 1, 0x4208) + rect_steps(4, 119, 116, 1, 0x4208) + rect_steps(
        4,
        4,
        1,
        116,
        0x4208,
    ) + rect_steps(119, 4, 1, 116, 0x4208)
}

/// Draws the tiles of the first `n` buttons.
pub open spec fn tiles_steps(buttons: Seq<bool>, n: nat) -> Seq<BusStep>
    decreases n,
{
    if n == 0 {
        seq![]
    } else {
        tiles_steps(buttons, (n - 1) as nat) + button_steps((n - 1) as u8, buttons[n - 1])
    }
}

/// Draws everything on a cleared panel.
pub open spec fn dashboard_steps(buttons: Seq<bool>, cc: u8) -> Seq<BusStep> {
    clear_steps(0x0000) + frame_steps() + tiles_steps(buttons, 4) + cc_steps(cc)
}

/// Brings the panel up: hardware reset, software reset, wake up, 16 bit colour,
/// orientation, display on, black.
pub open spec fn init_steps() -> Seq<BusStep> {
    seq![
        BusStep::Reset(false),
        BusStep::DelayMs(20),
        BusStep::Reset(true),
        BusStep::DelayMs(150),
    ] + command_steps(0x01) + seq![BusStep::DelayMs(150)] + command_steps(0x11) + seq![
        BusStep::DelayMs(120),
    ] + command_with_data_steps(0x3A, seq![0x05u8]) + command_with_data_steps(0x36, seq![0xA8u8])
        + command_steps(0x29) + seq![BusStep::DelayMs(50)] + clear_steps(0x0000)
}

impl Display {
    /// Brings the panel up.
    pub fn init(&mut self)
        ensures
            final(self)@ == old(self)@ + init_steps(),
    {
        self.push(LcdOp::Reset(false));
        self.push(LcdOp::DelayMs(20));
        self.push(LcdOp::Reset(true));
        self.push(LcdOp::DelayMs(150));
        self.command(0x01);
        self.push(LcdOp::DelayMs(150));
        self.command(0x11);
        self.push(LcdOp::DelayMs(120));
        let format: [u8; 1] = [0x05];
        let orientation: [u8; 1] = [0xA8];
        assert(format@ =~= seq![0x05u8]);
        assert(orientation@ =~= seq![0xA8u8]);
        self.command_with_data(0x3A, &format);
        self.command_with_data(0x36, &orientation);
        self.command(0x29);
        self.push(LcdOp::DelayMs(50));
        self.clear(0x0000);
        assert(self@ =~= old(self)@ + init_steps());
    }

    /// Draws the dashboard that is shown until a host has connected.
    pub fn show_startup(&mut self)
        ensures
            final(self)@ == old(self)@ + dashboard_steps(seq![false, false, false, false], 0),
    {
        let released: [bool; 4] = [false; 4];
        assert(released@ =~= seq![false, false, false, false]);
        self.draw_dashboard(&released, 0);
    }

    /// Draws everything.
    pub fn draw_dashboard(&mut self, buttons: &[bool; 4], cc: u8)
        ensures
            final(self)@ == old(self)@ + dashboard_steps(buttons@, cc),
    {
        self.clear(0x0000);
        self.rect(4, 4, 116, 1, 0x4208);
        self.rect(4, 119, 116, 1, 0x4208);
        self.rect(4, 4, 1, 116, 0x4208);
        self.rect(119, 4, 1, 116, 0x4208);
        let ghost start = old(self)@ + clear_steps(0x0000) + frame_steps();
        assert(self@ =~= start + tiles_steps(buttons@, 0));
        let mut i: u8 = 0;
        while i < 4
            invariant
                i <= 4,
                self@ == start + tiles_steps(buttons@, i as nat),
            decreases 4 - i,
        {
            self.draw_button(i, buttons[i as usize]);
            assert(tiles_steps(buttons@, (i + 1) as nat) == tiles_steps(buttons@, i as nat)
                + button_steps(i, buttons@[i as int]));
            assert(self@ =~= start + tiles_steps(buttons@, (i + 1) as nat));
            i += 1;
        }
        self.draw_cc(cc);
        assert(self@ =~= old(self)@ + dashboard_steps(buttons@, cc));
    }

    /// Draws the bar for a value. The position of the bar is plain arithmetic on bytes, in
    /// which nothing overflows, for the values up to 128 and for no others: 129 is the first
    /// whose bar is wider than 96 pixels. From there on the position wraps around.
    pub fn draw_cc(&mut self, cc: u8)
        ensures
            final(self)@ == old(self)@ + cc_steps(cc),
            cc <= 128 <==> 0 <= 96 - bar_width(cc),
            cc <= 128 ==> bar_x(cc) == 16 + (96 - bar_width(cc)) <= u8::MAX,
    {
        let fill: u8 = ((cc as u16 * 96) / 127) as u8;
        let fill_x: u8 = if cc <= 128 {
            16 + (96 - fill)
        } else {
            16u8.wrapping_add(96u8.wrapping_sub(fill))
        };
        assert(fill == bar_width(cc));
        assert(fill_x == bar_x(cc));
        self.rect(0, 88, 120, 28, 0x0000);
        self.rect(14, 94, 100, 18, 0x18E3);
        if fill > 0 {
            self.rect(fill_x, 97, fill, 12, 0x07E0);
        }
        assert(self@ =~= old(self)@ + cc_steps(cc));
    }

    /// Draws the tile of a button. There are colours for four held buttons, and
    /// room in the coordinates for ten tiles.
    pub fn draw_button(&mut self, index: u8, pressed: bool)
        requires
            index < 10,
            pressed ==> index < 4,
        ensures
            final(self)@ == old(self)@ + button_steps(index, pressed),
    {
        let x: u8 = 18 + index * 26;
        let color: u16 = if pressed {
            COLORS[index as usize]
        } else {
            0x39E7
        };
        self.rect(x, 16, 17, 58, color);
        if !pressed {
            self.rect(x + 3, 19, 11, 52, 0x8410);
        }
        assert(self@ =~= old(self)@ + button_steps(index, pressed));
    }
}

/// The length of the bar is proportional to the value: it is the number `n` of whole pixels
/// for which `n` to the value is as 96 to 127.
pub proof fn bar_is_proportional(cc: u8)
    ensures
        bar_width(cc) * 127 <= cc * 96 < (bar_width(cc) + 1) * 127,
        0 <= bar_width(cc) <= 192,
        bar_x(cc) == 112 - bar_width(cc) || bar_x(cc) == 368 - bar_width(cc),
        0 <= bar_x(cc) < 256,
{
}

/// The tile of a held button is one rectangle in the colour of the button; that of a button
/// that is not held is a grey one with a lighter one in it. The tiles are 26 columns apart.
pub proof fn tile_is_rectangles(index: u8)
    requires
        index < 10,
    ensures
        index < 4 ==> button_steps(index, true) == rect_steps(
            (18 + 26 * index) as u8,
            16,
            17,
            58,
            seq![0xF800u16, 0x07E0u16, 0x001Fu16, 0xFFE0u16][index as int],
        ),
        button_steps(index, false) == rect_steps((18 + 26 * index) as u8, 16, 17, 58, 0x39E7)
            + rect_steps((21 + 26 * index) as u8, 19, 11, 52, 0x8410),
{
}

/// The bar takes a black rectangle, the trough, and a green rectangle of `n` columns, which
/// is left out if there are none.
pub proof fn bar_is_rectangles(cc: u8) -> (n: int)
    ensures
        n * 127 <= cc * 96 < (n + 1) * 127,
        cc_steps(cc) =~= rect_steps(0, 88, 120, 28, 0) + rect_steps(14, 94, 100, 18, 0x18E3) + (
        if n == 0 {
            seq![]
        } else if n <= 112 {
            rect_steps((112 - n) as u8, 97, n as u8, 12, 0x07E0)
        } else {
            rect_steps((368 - n) as u8, 97, n as u8, 12, 0x07E0)
        }),
{
    bar_width(cc)
}

/// The dashboard is a cleared panel, the four sides of the frame, the four tiles in order,
/// and the bar.
pub proof fn dashboard_is_drawn_in_order(buttons: Seq<bool>, cc: u8)
    ensures
        dashboard_steps(buttons, cc) =~= clear_steps(0) + rect_steps(4, 4, 116, 1, 0x4208)
            + rect_steps(4, 119, 116, 1, 0x4208) + rect_steps(4, 4, 1, 116, 0x4208) + rect_steps(
            119,
            4,
            1,
            116,
            0x4208,
        ) + button_steps(0, buttons[0]) + button_steps(1, buttons[1]) + button_steps(2, buttons[2])
            + button_steps(3, buttons[3]) + cc_steps(cc),
{
    reveal_with_fuel(tiles_steps, 5);
}

/// The panel is brought up with a hardware reset, the commands for software reset, wake up,
/// 16 bit colour, orientation and display on, with the pauses that they need, and a black
/// screen.
pub proof fn panel_is_brought_up_in_order()
    ensures
        init_steps() =~= seq![
            BusStep::Reset(false),
            BusStep::DelayMs(20),
            BusStep::Reset(true),
            BusStep::DelayMs(150),
            BusStep::DataMode(false),
            BusStep::Write(seq![0x01u8]),
            BusStep::DelayMs(150),
            BusStep::DataMode(false),
            BusStep::Write(seq![0x11u8]),
            BusStep::DelayMs(120),
            BusStep::DataMode(false),
            BusStep::Write(seq![0x3Au8]),
            BusStep::DataMode(true),
            BusStep::Write(seq![0x05u8]),
            BusStep::DataMode(false),
            BusStep::Write(seq![0x36u8]),
            BusStep::DataMode(true),
            BusStep::Write(seq![0xA8u8]),
            BusStep::DataMode(false),
            BusStep::Write(seq![0x29u8]),
            BusStep::DelayMs(50),
        ] + clear_steps(0),
{
}

} // verus!
