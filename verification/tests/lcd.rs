use lumentra::lcd::{Display, LcdOp};

fn write(bytes: &[u8]) -> LcdOp {
    LcdOp::Write(bytes.to_vec())
}

fn lengths(ops: &[LcdOp]) -> Vec<usize> {
    let mut lengths = vec![];
    for op in ops {
        match op {
            LcdOp::Write(bytes) => lengths.push(bytes.len()),
            LcdOp::WriteRepeated(bytes, times) => {
                for _ in 0..*times {
                    lengths.push(bytes.len());
                }
            }
            LcdOp::Reset(_) | LcdOp::DataMode(_) | LcdOp::DelayMs(_) => {}
        }
    }
    lengths
}

#[test]
fn commands() {
    let mut display = Display::new();
    display.command(0x29);
    display.command_with_data(0x3A, &[0x05]);
    assert_eq!(
        display.flush(),
        vec![
            LcdOp::DataMode(false),
            write(&[0x29]),
            LcdOp::DataMode(false),
            write(&[0x3A]),
            LcdOp::DataMode(true),
            write(&[0x05]),
        ]
    );
    assert_eq!(display.flush(), vec![]);
}

#[test]
fn windows_are_moved_to_the_visible_area() {
    let mut raw = Display::new();
    raw.raw_set_window(5, 7, 9, 12);
    let mut moved = Display::new();
    moved.set_window(1, 4, 5, 9);
    let ops = raw.flush();
    assert_eq!(
        ops,
        vec![
            LcdOp::DataMode(false),
            write(&[0x2A]),
            LcdOp::DataMode(true),
            write(&[0, 5, 0, 9]),
            LcdOp::DataMode(false),
            write(&[0x2B]),
            LcdOp::DataMode(true),
            write(&[0, 7, 0, 12]),
            LcdOp::DataMode(false),
            write(&[0x2C]),
        ]
    );
    assert_eq!(ops, moved.flush());
}

#[test]
fn fills_go_out_in_pieces() {
    let mut display = Display::new();
    display.fill_pixels(0, 0x1234);
    assert_eq!(display.flush(), vec![LcdOp::DataMode(true)]);
    display.fill_pixels(2, 0x1234);
    assert_eq!(
        display.flush(),
        vec![LcdOp::DataMode(true), write(&[0x12, 0x34, 0x12, 0x34])]
    );
    display.fill_pixels(32, 0xF800);
    assert_eq!(lengths(&display.flush()), vec![64]);
    display.fill_pixels(70, 0xF800);
    assert_eq!(lengths(&display.flush()), vec![64, 64, 12]);
    display.fill_pixels(u16::MAX, 0xF800);
    let ops = display.flush();
    assert_eq!(lengths(&ops).len(), 2048);
    assert_eq!(lengths(&ops)[2047], 62);
}

#[test]
fn equal_pieces_are_recorded_once() {
    let mut display = Display::new();
    display.fill_pixels(65, 0x1234);
    let mut piece = vec![];
    for _ in 0..32 {
        piece.push(0x12);
        piece.push(0x34);
    }
    assert_eq!(
        display.flush(),
        vec![
            LcdOp::DataMode(true),
            LcdOp::WriteRepeated(piece, 2),
            write(&[0x12, 0x34]),
        ]
    );
}

#[test]
fn empty_rectangles_and_those_outside_take_no_traffic() {
    let mut display = Display::new();
    display.rect(1, 1, 0, 5, 0xFFFF);
    display.rect(1, 1, 5, 0, 0xFFFF);
    display.rect(128, 1, 5, 5, 0xFFFF);
    display.rect(1, 255, 5, 5, 0xFFFF);
    assert_eq!(display.flush(), vec![]);
}

#[test]
fn rectangles_are_cut_off() {
    let mut display = Display::new();
    display.rect(120, 126, 255, 255, 0xABCD);
    let ops = display.flush();
    assert_eq!(ops[3], write(&[0, 124, 0, 131]));
    assert_eq!(ops[7], write(&[0, 129, 0, 130]));
    // Eight columns, two rows.
    assert_eq!(lengths(&ops[10..]), vec![32]);
}

#[test]
fn clearing_fills_the_whole_memory() {
    let mut display = Display::new();
    display.clear(0x0000);
    let ops = display.flush();
    let total: usize = lengths(&ops).into_iter().sum();
    // Two windows of eleven bytes each, and two fills.
    assert_eq!(total, 2 * 11 + 2 * 132 * 132 + 2 * 128 * 128);
    assert_eq!(ops[3], write(&[0, 0, 0, 131]));
}

#[test]
fn bringing_up_the_panel() {
    let mut display = Display::new();
    display.init();
    let ops = display.flush();
    assert_eq!(
        ops[..20],
        [
            LcdOp::Reset(false),
            LcdOp::DelayMs(20),
            LcdOp::Reset(true),
            LcdOp::DelayMs(150),
            LcdOp::DataMode(false),
            write(&[0x01]),
            LcdOp::DelayMs(150),
            LcdOp::DataMode(false),
            write(&[0x11]),
            LcdOp::DelayMs(120),
            LcdOp::DataMode(false),
            write(&[0x3A]),
            LcdOp::DataMode(true),
            write(&[0x05]),
            LcdOp::DataMode(false),
            write(&[0x36]),
            LcdOp::DataMode(true),
            write(&[0xA8]),
            LcdOp::DataMode(false),
            write(&[0x29]),
        ]
    );
    assert_eq!(ops[20], LcdOp::DelayMs(50));
    display.clear(0x0000);
    assert_eq!(ops[21..], display.flush()[..]);
}
