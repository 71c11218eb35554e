//! The display driver: turns drawing requests into the bus traffic of the LCD.
//!
//! A [`Display`] does not own the bus. It records what has to happen on it, in
//! order, and the board performs the record that [`Display::flush`] hands out.
use vstd::prelude::*;
use vstd::slice::{slice_subrange, slice_to_vec};

verus! {

/// Distance between a visible column and its column in the panel's memory.
pub const LCD_COL_OFFSET: u8 = 4;

/// Distance between a visible row and its row in the panel's memory.
pub const LCD_ROW_OFFSET: u8 = 3;

/// One thing to do on the lines that lead to the panel.
#[derive(Debug, PartialEq, Eq)]
pub enum LcdOp {
    /// Drive the reset line high (`true`) or low.
    Reset(bool),
    /// Drive the data/command line high (`true`, data) or low (command).
    DataMode(bool),
    /// Send these bytes in one SPI transfer.
    Write(Vec<u8>),
    /// Send these bytes in one SPI transfer, and again, this many times in all.
    WriteRepeated(Vec<u8>, u32),
    /// Wait this many milliseconds.
    DelayMs(u64),
}

/// One step on the bus, mathematically.
pub enum BusStep {
    Reset(bool),
    DataMode(bool),
    Write(Seq<u8>),
    DelayMs(u64),
}

impl View for LcdOp {
    type V = Seq<BusStep>;

    /// The steps that an operation takes on the bus.
    open spec fn view(&self) -> Seq<BusStep> {
        match self {
            LcdOp::Reset(high) => seq![BusStep::Reset(*high)],
            LcdOp::DataMode(high) => seq![BusStep::DataMode(*high)],
            LcdOp::Write(bytes) => seq![BusStep::Write(bytes@)],
            LcdOp::WriteRepeated(bytes, times) => Seq::new(
                *times as nat,
                |i: int| BusStep::Write(bytes@),
            ),
            LcdOp::DelayMs(ms) => seq![BusStep::DelayMs(*ms)],
        }
    }
}

/// What a record of operations does on the bus: the steps of one after another.
pub open spec fn bus(ops: Seq<LcdOp>) -> Seq<BusStep>
    decreases ops.len(),
{
    if ops.len() == 0 {
        seq![]
    } else {
        bus(ops.drop_last()) + ops.last()@
    }
}

/// A command byte, sent with the data line low.
pub open spec fn command_steps(cmd: u8) -> Seq<BusStep> {
    seq![BusStep::DataMode(false), BusStep::Write(seq![cmd])]
}

/// A command byte and its parameters, which are sent with the data line high.
pub open spec fn command_with_data_steps(cmd: u8, data: Seq<u8>) -> Seq<BusStep> {
    command_steps(cmd) + seq![BusStep::DataMode(true), BusStep::Write(data)]
}

/// Selects the memory columns `x0..=x1` and rows `y0..=y1` and opens them for writing.
pub open spec fn raw_window_steps(x0: u8, y0: u8, x1: u8, y1: u8) -> Seq<BusStep> {
    command_with_data_steps(0x2A, seq![0u8, x0, 0u8, x1]) + command_with_data_steps(
        0x2B,
        seq![0u8, y0, 0u8, y1],
    ) + command_steps(0x2C)
}

/// Selects a window that is given in visible coordinates.
pub open spec fn window_steps(x0: u8, y0: u8, x1: u8, y1: u8) -> Seq<BusStep> {
    raw_window_steps(
        (x0 + LCD_COL_OFFSET) as u8,
        (y0 + LCD_ROW_OFFSET) as u8,
        (x1 + LCD_COL_OFFSET) as u8,
        (y1 + LCD_ROW_OFFSET) as u8,
    )
}

/// The first `len` bytes of a pixel stream in one colour: high byte first, then low.
pub open spec fn stripe(color: u16, len: nat) -> Seq<u8> {
    Seq::new(
        len,
        |i: int|
            if i % 2 == 0 {
                (color / 256) as u8
            } else {
                (color % 256) as u8
            },
    )
}

/// The number of bytes in transfer `k` of a stream of `len` bytes, which goes out
/// in transfers of 64 bytes and a shorter one for the rest.
pub open spec fn transfer_len(len: nat, k: int) -> nat {
    if len - 64 * k >= 64 {
        64
    } else {
        (len - 64 * k) as nat
    }
}

/// The transfers that carry `len` bytes of a pixel stream in one colour.
pub open spec fn transfers(color: u16, len: nat) -> Seq<BusStep> {
    Seq::new(
        (len + 63) / 64,
        |k: int| BusStep::Write(stripe(color, transfer_len(len, k))),
    )
}

/// Sends `pixels` pixels of one colour.
pub open spec fn fill_steps(pixels: nat, color: u16) -> Seq<BusStep> {
    seq![BusStep::DataMode(true)] + transfers(color, 2 * pixels)
}

/// The last visible coordinate that a span of `len` from `start` covers.
pub open spec fn span_end(start: u8, len: u8) -> u8 {
    if start + len - 1 <= 127 {
        (start + len - 1) as u8
    } else {
        127
    }
}

/// Fills a rectangle, cut off at the right and lower edge of the visible area.
/// An empty rectangle, or one that starts outside, takes no bus traffic.
pub open spec fn rect_steps(x: u8, y: u8, w: u8, h: u8, color: u16) -> Seq<BusStep> {
    if w == 0 || h == 0 || x >= 128 || y >= 128 {
        seq![]
    } else {
        let x1 = span_end(x, w);
        let y1 = span_end(y, h);
        window_steps(x, y, x1, y1) + fill_steps(
            ((x1 - x + 1) * (y1 - y + 1)) as nat,
            color,
        )
    }
}

/// Fills the panel's whole memory, then the visible area once more.
pub open spec fn clear_steps(color: u16) -> Seq<BusStep> {
    raw_window_steps(0, 0, 131, 131) + fill_steps(132 * 132, color) + window_steps(0, 0, 127, 127)
        + fill_steps(128 * 128, color)
}

/// The display driver, with what it has recorded and not yet handed out.
pub struct Display {
    ops: Vec<LcdOp>,
}

impl View for Display {
    type V = Seq<BusStep>;

    closed spec fn view(&self) -> Seq<BusStep> {
        bus(self.ops@)
    }
}

impl Display {
    /// A driver that has recorded nothing.
    pub fn new() -> (display: Self)
        ensures
            display@ == Seq::<BusStep>::empty(),
    {
        Display { ops: Vec::new() }
    }

    pub(crate) fn push(&mut self, op: LcdOp)
        ensures
            final(self)@ == old(self)@ + op@,
    {
        self.ops.push(op);
        assert(self.ops@.drop_last() =~= old(self).ops@);
    }

    /// Hands out the record and starts an empty one.
    pub fn flush(&mut self) -> (ops: Vec<LcdOp>)
        ensures
            bus(ops@) == old(self)@,
            final(self)@ == Seq::<BusStep>::empty(),
    {
        let mut ops: Vec<LcdOp> = Vec::new();
        std::mem::swap(&mut ops, &mut self.ops);
        assert(self@ =~= Seq::<BusStep>::empty());
        ops
    }

    /// Sends a command byte.
    pub fn command(&mut self, cmd: u8)
        ensures
            final(self)@ == old(self)@ + command_steps(cmd),
    {
        self.push(LcdOp::DataMode(false));
        let bytes: Vec<u8> = vec![cmd];
        assert(bytes@ =~= seq![cmd]);
        self.push(LcdOp::Write(bytes));
        assert(self@ =~= old(self)@ + command_steps(cmd));
    }

    /// Sends a command byte and its parameters.
    pub fn command_with_data(&mut self, cmd: u8, data: &[u8])
        ensures
            final(self)@ == old(self)@ + command_with_data_steps(cmd, data@),
    {
        self.command(cmd);
        self.push(LcdOp::DataMode(true));
        self.push(LcdOp::Write(slice_to_vec(data)));
        assert(self@ =~= old(self)@ + command_with_data_steps(cmd, data@));
    }

    /// Selects a window in memory coordinates.
    pub fn raw_set_window(&mut self, x0: u8, y0: u8, x1: u8, y1: u8)
        ensures
            final(self)@ == old(self)@ + raw_window_steps(x0, y0, x1, y1),
    {
        let columns: [u8; 4] = [0, x0, 0, x1];
        let rows: [u8; 4] = [0, y0, 0, y1];
        self.command_with_data(0x2A, &columns);
        self.command_with_data(0x2B, &rows);
        self.command(0x2C);
        assert(columns@ =~= seq![0u8, x0, 0u8, x1]);
        assert(rows@ =~= seq![0u8, y0, 0u8, y1]);
        assert(self@ =~= old(self)@ + raw_window_steps(x0, y0, x1, y1));
    }

    /// Selects a window in visible coordinates.
    pub fn set_window(&mut self, x0: u8, y0: u8, x1: u8, y1: u8)
        requires
            x0 + LCD_COL_OFFSET <= u8::MAX,
            y0 + LCD_ROW_OFFSET <= u8::MAX,
            x1 + LCD_COL_OFFSET <= u8::MAX,
            y1 + LCD_ROW_OFFSET <= u8::MAX,
        ensures
            final(self)@ == old(self)@ + window_steps(x0, y0, x1, y1),
    {
        let x0: u8 = x0 + LCD_COL_OFFSET;
        let x1: u8 = x1 + LCD_COL_OFFSET;
        let y0: u8 = y0 + LCD_ROW_OFFSET;
        let y1: u8 = y1 + LCD_ROW_OFFSET;
        self.raw_set_window(x0, y0, x1, y1);
    }

    /// Sends `pixels` pixels of one colour into the selected window.
    pub fn fill_pixels(&mut self, pixels: u16, color: u16)
        ensures
            final(self)@ == old(self)@ + fill_steps(pixels as nat, color),
    {
        self.push(LcdOp::DataMode(true));
        let hi: u8 = (color >> 8) as u8;
        let lo: u8 = #[verifier::truncate] (color as u8);
        assert(hi == color / 256) by (bit_vector)
            requires
                hi == (color >> 8) as u8,
        ;
        assert(lo == color % 256) by (bit_vector)
            requires
                lo == color as u8,
        ;
        let mut buf: [u8; 64] = [0u8; 64];
        let mut i: usize = 0;
        while i < 64
            invariant
                i <= 64,
                i % 2 == 0,
                hi == color / 256,
                lo == color % 256,
                forall|j: int| 0 <= j < i ==> #[trigger] buf@[j] == stripe(color, 64)[j],
            decreases 64 - i,
        {
            buf[i] = hi;
            buf[i + 1] = lo;
            i += 2;
        }
        assert(buf@ =~= stripe(color, 64));
        let bytes: u32 = pixels as u32 * 2;
        let whole: u32 = bytes / 64;
        let rest: u32 = bytes % 64;
        if whole > 0 {
            self.push(LcdOp::WriteRepeated(slice_to_vec(&buf), whole));
        }
        if rest > 0 {
            self.push(LcdOp::Write(slice_to_vec(slice_subrange(&buf, 0, rest as usize))));
            assert(stripe(color, 64).subrange(0, rest as int) =~= stripe(color, rest as nat));
        }
        assert(self@ =~= old(self)@ + fill_steps(pixels as nat, color));
    }

    /// Fills a rectangle given in visible coordinates, cut off at the right and
    /// lower edge of the visible area.
    pub fn rect(&mut self, x: u8, y: u8, w: u8, h: u8, color: u16)
        ensures
            final(self)@ == old(self)@ + rect_steps(x, y, w, h, color),
    {
        if w == 0 || h == 0 || x >= 128 || y >= 128 {
            assert(self@ =~= old(self)@ + rect_steps(x, y, w, h, color));
            return ;
        }
        let x1: u8 = (x as u16 + w as u16 - 1).min(127) as u8;
        let y1: u8 = (y as u16 + h as u16 - 1).min(127) as u8;
        let cols: u8 = x1 - x + 1;
        let rows: u8 = y1 - y + 1;
        assert(cols * rows <= 128 * 128) by (nonlinear_arith)
            requires
                cols <= 128,
                rows <= 128,
        ;
        self.set_window(x, y, x1, y1);
        self.fill_pixels(cols as u16 * rows as u16, color);
        assert(self@ =~= old(self)@ + rect_steps(x, y, w, h, color));
    }

    /// Fills the panel's whole memory with one colour.
    pub fn clear(&mut self, color: u16)
        ensures
            final(self)@ == old(self)@ + clear_steps(color),
    {
        self.raw_set_window(0, 0, 131, 131);
        self.fill_pixels(132 * 132, color);
        self.set_window(0, 0, 127, 127);
        self.fill_pixels(128 * 128, color);
        assert(self@ =~= old(self)@ + clear_steps(color));
    }
}

/// The bytes that a sequence of steps sends, one after another.
pub open spec fn sent_bytes(steps: Seq<BusStep>) -> Seq<u8>
    decreases steps.len(),
{
    if steps.len() == 0 {
        seq![]
    } else {
        sent_bytes(steps.drop_last()) + match steps.last() {
            BusStep::Write(bytes) => bytes,
            _ => seq![],
        }
    }
}

proof fn lemma_sent_by_transfers(color: u16, len: nat, k: nat)
    requires
        k <= (len + 63) / 64,
    ensures
        sent_bytes(seq![BusStep::DataMode(true)] + transfers(color, len).take(k as int)) == stripe(
            color,
            if 64 * k <= len {
                64 * k
            } else {
                len
            },
        ),
    decreases k,
{
    let enter = seq![BusStep::DataMode(true)];
    let steps = transfers(color, len);
    let so_far = enter + steps.take(k as int);
    if k == 0 {
        reveal_with_fuel(sent_bytes, 2);
        assert(so_far =~= enter);
        assert(sent_bytes(so_far) =~= stripe(color, 0));
    } else {
        let j = (k - 1) as nat;
        lemma_sent_by_transfers(color, len, j);
        assert(so_far.drop_last() =~= enter + steps.take(j as int));
        let part = stripe(color, transfer_len(len, j as int));
        assert(so_far.last() == BusStep::Write(part));
        assert(sent_bytes(so_far) =~= stripe(color, 64 * j) + part);
        assert(sent_bytes(so_far) =~= stripe(
            color,
            if 64 * k <= len {
                64 * k
            } else {
                len
            },
        ));
    }
}

/// A fill sends its pixels in full, two bytes for each, high byte first, with the data line
/// high, in transfers of 64 bytes and a last one that is not longer and not empty.
pub proof fn fill_sends_every_pixel(pixels: nat, color: u16)
    ensures
        sent_bytes(fill_steps(pixels, color)) == stripe(color, 2 * pixels),
        sent_bytes(fill_steps(pixels, color)).len() == 2 * pixels,
        forall|i: int|
            0 <= i < 2 * pixels && i % 2 == 0 ==> #[trigger] sent_bytes(
                fill_steps(pixels, color),
            )[i] == color / 256,
        forall|i: int|
            0 <= i < 2 * pixels && i % 2 == 1 ==> #[trigger] sent_bytes(
                fill_steps(pixels, color),
            )[i] == color % 256,
        fill_steps(pixels, color).len() >= 1,
        fill_steps(pixels, color)[0] == BusStep::DataMode(true),
        forall|k: int|
            1 <= k < fill_steps(pixels, color).len() ==> (#[trigger] fill_steps(
                pixels,
                color,
            )[k] matches BusStep::Write(bytes) && 0 < bytes.len() <= 64),
        forall|k: int|
            1 <= k < fill_steps(pixels, color).len() - 1 ==> (#[trigger] fill_steps(
                pixels,
                color,
            )[k] matches BusStep::Write(bytes) && bytes.len() == 64),
{
    let steps = transfers(color, 2 * pixels);
    lemma_sent_by_transfers(color, 2 * pixels, steps.len());
    assert(steps.take(steps.len() as int) =~= steps);
}

/// What the operations mean: each is one step, except that a repeated transfer is that many
/// equal ones.
pub proof fn operations_take_their_steps(op: LcdOp)
    ensures
        match op {
            LcdOp::Reset(high) => op@ =~= seq![BusStep::Reset(high)],
            LcdOp::DataMode(high) => op@ =~= seq![BusStep::DataMode(high)],
            LcdOp::Write(bytes) => op@ =~= seq![BusStep::Write(bytes@)],
            LcdOp::WriteRepeated(bytes, times) => op@.len() == times && forall|i: int|
                0 <= i < times ==> #[trigger] op@[i] == BusStep::Write(bytes@),
            LcdOp::DelayMs(ms) => op@ =~= seq![BusStep::DelayMs(ms)],
        },
{
}

/// Operations take effect in the order in which they were recorded.
pub proof fn records_keep_their_order(a: Seq<LcdOp>, b: Seq<LcdOp>)
    ensures
        bus(a + b) == bus(a) + bus(b),
    decreases b.len(),
{
    if b.len() == 0 {
        assert(a + b =~= a);
        assert(bus(a) + bus(b) =~= bus(a));
    } else {
        records_keep_their_order(a, b.drop_last());
        assert((a + b).drop_last() =~= a + b.drop_last());
        assert(bus(a) + bus(b) =~= bus(a) + bus(b.drop_last()) + b.last()@);
    }
}

/// A command byte is one transfer of its own with the data line low; parameters follow it
/// in one transfer with the line high.
pub proof fn commands_on_the_bus(cmd: u8, data: Seq<u8>)
    ensures
        command_steps(cmd) =~= seq![BusStep::DataMode(false), BusStep::Write(seq![cmd])],
        command_with_data_steps(cmd, data) =~= seq![
            BusStep::DataMode(false),
            BusStep::Write(seq![cmd]),
            BusStep::DataMode(true),
            BusStep::Write(data),
        ],
{
}

/// A window is selected by its first and last column, its first and last row, and the
/// command that opens it for pixels.
pub proof fn windows_on_the_bus(x0: u8, y0: u8, x1: u8, y1: u8)
    ensures
        raw_window_steps(x0, y0, x1, y1) =~= seq![
            BusStep::DataMode(false),
            BusStep::Write(seq![0x2Au8]),
            BusStep::DataMode(true),
            BusStep::Write(seq![0u8, x0, 0u8, x1]),
            BusStep::DataMode(false),
            BusStep::Write(seq![0x2Bu8]),
            BusStep::DataMode(true),
            BusStep::Write(seq![0u8, y0, 0u8, y1]),
            BusStep::DataMode(false),
            BusStep::Write(seq![0x2Cu8]),
        ],
{
}

/// The visible area begins four columns and three rows into the panel's memory.
pub proof fn visible_area_is_moved(x0: u8, y0: u8, x1: u8, y1: u8)
    requires
        x0 <= 251,
        x1 <= 251,
        y0 <= 252,
        y1 <= 252,
    ensures
        window_steps(x0, y0, x1, y1) == raw_window_steps(
            (x0 + 4) as u8,
            (y0 + 3) as u8,
            (x1 + 4) as u8,
            (y1 + 3) as u8,
        ),
{
}

/// A rectangle of which `cols` columns and `rows` rows lie in the visible area takes the
/// selection of those and as many pixels as they hold; one of which nothing does takes no
/// traffic.
pub proof fn rectangles_on_the_bus(x: u8, y: u8, w: u8, h: u8, color: u16)
    ensures
        w == 0 || h == 0 || x >= 128 || y >= 128 ==> rect_steps(x, y, w, h, color).len() == 0,
        w > 0 && h > 0 && x < 128 && y < 128 ==> ({
            let cols = if x + w <= 128 {
                w as int
            } else {
                128 - x
            };
            let rows = if y + h <= 128 {
                h as int
            } else {
                128 - y
            };
            rect_steps(x, y, w, h, color) == raw_window_steps(
                (x + 4) as u8,
                (y + 3) as u8,
                (x + cols + 3) as u8,
                (y + rows + 2) as u8,
            ) + fill_steps((cols * rows) as nat, color)
        }),
{
    if w > 0 && h > 0 && x < 128 && y < 128 {
        let cols = if x + w <= 128 {
            w as int
        } else {
            128 - x
        };
        let rows = if y + h <= 128 {
            h as int
        } else {
            128 - y
        };
        let x1 = span_end(x, w);
        let y1 = span_end(y, h);
        assert(x1 - x + 1 == cols && y1 - y + 1 == rows);
        assert((x1 - x + 1) * (y1 - y + 1) == cols * rows);
    }
}

/// Clearing selects the whole memory and fills it, then the visible area and fills it.
pub proof fn clearing_on_the_bus(color: u16)
    ensures
        clear_steps(color) =~= raw_window_steps(0, 0, 131, 131) + fill_steps(17424, color)
            + raw_window_steps(4, 3, 131, 130) + fill_steps(16384, color),
{
}

} // verus!
