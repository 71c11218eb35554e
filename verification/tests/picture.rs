use lumentra::lcd::{Display, LcdOp};

/// A panel that interprets the traffic.
struct Panel {
    data_mode: bool,
    command: u8,
    data: Vec<u8>,
    columns: (usize, usize),
    rows: (usize, usize),
    memory: Vec<u16>,
}

impl Panel {
    fn new() -> Self {
        Panel {
            data_mode: false,
            command: 0,
            data: vec![],
            columns: (0, 0),
            rows: (0, 0),
            memory: vec![0x5555; 132 * 132],
        }
    }

    fn receive(&mut self, byte: u8) {
        if !self.data_mode {
            self.command = byte;
            self.data.clear();
            return;
        }
        self.data.push(byte);
        let count = self.data.len();
        if self.command == 0x2A && count == 4 {
            self.columns = (self.data[1] as usize, self.data[3] as usize);
        }
        if self.command == 0x2B && count == 4 {
            self.rows = (self.data[1] as usize, self.data[3] as usize);
        }
        if self.command == 0x2C && count % 2 == 0 {
            let pixel = count / 2 - 1;
            let width = self.columns.1 - self.columns.0 + 1;
            let height = self.rows.1 - self.rows.0 + 1;
            let column = self.columns.0 + pixel % width;
            let row = self.rows.0 + pixel / width % height;
            self.memory[132 * row + column] =
                256 * self.data[count - 2] as u16 + self.data[count - 1] as u16;
        }
    }

    fn perform(&mut self, ops: Vec<LcdOp>) {
        for op in ops {
            match op {
                LcdOp::DataMode(high) => self.data_mode = high,
                LcdOp::Write(bytes) => {
                    for byte in bytes {
                        self.receive(byte);
                    }
                }
                LcdOp::WriteRepeated(bytes, times) => {
                    for _ in 0..times {
                        for byte in &bytes {
                            self.receive(*byte);
                        }
                    }
                }
                LcdOp::Reset(_) | LcdOp::DelayMs(_) => {}
            }
        }
    }

    fn visible(&self, x: usize, y: usize) -> u16 {
        self.memory[132 * (y + 3) + x + 4]
    }
}

fn dashboard(buttons: [bool; 4], cc: u8) -> Panel {
    let mut display = Display::new();
    display.draw_dashboard(&buttons, cc);
    let mut panel = Panel::new();
    panel.perform(display.flush());
    panel
}

#[test]
fn a_rectangle_paints_what_it_covers() {
    let mut display = Display::new();
    display.rect(100, 3, 40, 2, 0x1234);
    let mut panel = Panel::new();
    panel.perform(display.flush());
    for y in 0..128 {
        for x in 0..128 {
            let inside = x >= 100 && (y == 3 || y == 4);
            assert_eq!(panel.visible(x, y), if inside { 0x1234 } else { 0x5555 });
        }
    }
    // Outside the visible area nothing has changed either.
    assert!(panel.memory[..132 * 6].iter().all(|&color| color == 0x5555));
    assert!(panel.memory[132 * 8..].iter().all(|&color| color == 0x5555));
}

#[test]
fn clearing_paints_everything() {
    let mut display = Display::new();
    display.init();
    let mut panel = Panel::new();
    panel.perform(display.flush());
    assert!(panel.memory.iter().all(|&color| color == 0x0000));
}

#[test]
fn the_dashboard() {
    let panel = dashboard([true, false, false, true], 127);
    // The frame, its corner, and where the bar interrupts it.
    assert_eq!(panel.visible(4, 4), 0x4208);
    assert_eq!(panel.visible(119, 119), 0x4208);
    assert_eq!(panel.visible(60, 119), 0x4208);
    assert_eq!(panel.visible(4, 100), 0x0000);
    assert_eq!(panel.visible(3, 4), 0x0000);
    // A held button, a released one with its frame, and the last one.
    assert_eq!(panel.visible(18, 16), 0xF800);
    assert_eq!(panel.visible(30, 40), 0xF800);
    assert_eq!(panel.visible(35, 40), 0x0000);
    assert_eq!(panel.visible(44, 16), 0x39E7);
    assert_eq!(panel.visible(47, 19), 0x8410);
    assert_eq!(panel.visible(57, 70), 0x8410);
    assert_eq!(panel.visible(58, 70), 0x39E7);
    assert_eq!(panel.visible(96, 73), 0xFFE0);
    assert_eq!(panel.visible(96, 74), 0x0000);
    // The bar in its trough.
    assert_eq!(panel.visible(14, 94), 0x18E3);
    assert_eq!(panel.visible(15, 100), 0x18E3);
    assert_eq!(panel.visible(16, 97), 0x07E0);
    assert_eq!(panel.visible(111, 108), 0x07E0);
    assert_eq!(panel.visible(112, 100), 0x18E3);
    assert_eq!(panel.visible(114, 100), 0x0000);
}

#[test]
fn all_colours_of_held_buttons() {
    let panel = dashboard([true; 4], 0);
    assert_eq!(panel.visible(20, 20), 0xF800);
    assert_eq!(panel.visible(46, 20), 0x07E0);
    assert_eq!(panel.visible(72, 20), 0x001F);
    assert_eq!(panel.visible(98, 20), 0xFFE0);
}

#[test]
fn bars_grow_from_the_right() {
    // 64 * 96 / 127 is 48.
    let panel = dashboard([false; 4], 64);
    assert_eq!(panel.visible(63, 100), 0x18E3);
    assert_eq!(panel.visible(64, 100), 0x07E0);
    assert_eq!(panel.visible(111, 100), 0x07E0);
    let panel = dashboard([false; 4], 0);
    assert_eq!(panel.visible(111, 100), 0x18E3);
}

#[test]
fn no_value_leaves_the_trough_empty() {
    let panel = dashboard([false; 4], 255);
    for x in 14..114 {
        assert_eq!(panel.visible(x, 100), 0x18E3);
    }
}

#[test]
fn a_bar_a_little_too_long_runs_over_the_left_end() {
    // 129 * 96 / 127 is 97.
    let panel = dashboard([false; 4], 129);
    assert_eq!(panel.visible(14, 100), 0x18E3);
    assert_eq!(panel.visible(15, 100), 0x07E0);
    assert_eq!(panel.visible(111, 100), 0x07E0);
}

#[test]
fn the_widest_bar_that_does_not_run_over() {
    // 128 * 96 / 127 is 96, as for 127.
    assert!(dashboard([false; 4], 128).memory == dashboard([false; 4], 127).memory);
}

#[test]
fn the_first_picture() {
    let mut display = Display::new();
    display.show_startup();
    let mut panel = Panel::new();
    panel.perform(display.flush());
    assert!(panel.memory == dashboard([false; 4], 0).memory);
}

#[test]
fn redrawing_a_tile_is_as_good_as_redrawing_everything() {
    for index in 0..4u8 {
        for pressed in [false, true] {
            let mut panel = dashboard([true, false, true, false], 30);
            let mut display = Display::new();
            display.draw_button(index, pressed);
            panel.perform(display.flush());
            let mut buttons = [true, false, true, false];
            buttons[index as usize] = pressed;
            assert!(panel.memory == dashboard(buttons, 30).memory);
        }
    }
}

#[test]
fn redrawing_the_bar_is_as_good_as_redrawing_everything() {
    for (old, new) in [(0u8, 127u8), (127, 0), (255, 64), (64, 255), (100, 99), (140, 20)] {
        let mut panel = dashboard([false, true, false, true], old);
        let mut display = Display::new();
        display.draw_cc(new);
        panel.perform(display.flush());
        assert!(panel.memory == dashboard([false, true, false, true], new).memory);
    }
}

#[test]
fn a_tile_beyond_the_fourth_is_cut_off_or_left_out() {
    let mut display = Display::new();
    display.draw_button(4, false);
    let ops = display.flush();
    assert_eq!(ops[3], LcdOp::Write(vec![0, 126, 0, 131]));
    display.draw_button(9, false);
    assert_eq!(display.flush(), vec![]);
}
