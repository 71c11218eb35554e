//! A model of the panel's controller, and what the driver's traffic paints on it.
//!
//! The controller takes a command byte while the data line is low and the bytes that
//! belong to it while the line is high. Three commands matter for painting: `0x2A` and
//! `0x2B` take the first and the last column (row) of a window, two bytes each, high byte
//! first; `0x2C` takes pixels, two bytes each, high byte first, and stores them row by
//! row in the window. What the other commands do is left out.
use crate::lcd::{
    clear_steps, command_steps, command_with_data_steps, fill_steps, raw_window_steps, rect_steps,
    span_end, stripe, transfer_len, transfers, window_steps, BusStep, LCD_COL_OFFSET,
    LCD_ROW_OFFSET,
};
use vstd::arithmetic::div_mod::{
    lemma_fundamental_div_mod, lemma_fundamental_div_mod_converse, lemma_small_mod,
};
use vstd::prelude::*;

verus! {

/// The controller's state, as far as painting depends on it.
pub struct Panel {
    /// Level of the data/command line.
    pub data_mode: bool,
    /// The last command byte.
    pub command: u8,
    /// How many data bytes have come since that command.
    pub count: nat,
    /// The last data byte that opens a pair.
    pub high: u8,
    /// First and last column of the window.
    pub x0: int,
    pub x1: int,
    /// First and last row of the window.
    pub y0: int,
    pub y1: int,
    /// The colour stored at a column and a row.
    pub memory: spec_fn(int, int) -> u16,
}

impl Panel {
    /// The column that pixel `k` of a stream goes to.
    pub open spec fn column(self, k: int) -> int {
        self.x0 + k % (self.x1 - self.x0 + 1)
    }

    /// The row that pixel `k` of a stream goes to; behind the last row comes the first.
    pub open spec fn row(self, k: int) -> int {
        self.y0 + (k / (self.x1 - self.x0 + 1)) % (self.y1 - self.y0 + 1)
    }

    /// The colour at a visible position.
    pub open spec fn visible(self, x: int, y: int) -> u16 {
        (self.memory)(x + LCD_COL_OFFSET, y + LCD_ROW_OFFSET)
    }

    /// What one byte on the bus does.
    pub open spec fn receive(self, byte: u8) -> Panel {
        if !self.data_mode {
            Panel { command: byte, count: 0, ..self }
        } else {
            let word = 256 * self.high + byte;
            let next = Panel { count: self.count + 1, ..self };
            if self.count % 2 == 0 {
                Panel { high: byte, ..next }
            } else if self.command == 0x2A && self.count == 1 {
                Panel { x0: word, ..next }
            } else if self.command == 0x2A && self.count == 3 {
                Panel { x1: word, ..next }
            } else if self.command == 0x2B && self.count == 1 {
                Panel { y0: word, ..next }
            } else if self.command == 0x2B && self.count == 3 {
                Panel { y1: word, ..next }
            } else if self.command == 0x2C {
                let k = (self.count / 2) as int;
                Panel {
                    memory: |c: int, r: int|
                        if c == self.column(k) && r == self.row(k) {
                            word as u16
                        } else {
                            (self.memory)(c, r)
                        },
                    ..next
                }
            } else {
                next
            }
        }
    }

    /// What one transfer does.
    pub open spec fn receive_all(self, bytes: Seq<u8>) -> Panel
        decreases bytes.len(),
    {
        if bytes.len() == 0 {
            self
        } else {
            self.receive_all(bytes.drop_last()).receive(bytes.last())
        }
    }

    /// What one step on the bus does.
    pub open spec fn step(self, step: BusStep) -> Panel {
        match step {
            BusStep::DataMode(high) => Panel { data_mode: high, ..self },
            BusStep::Write(bytes) => self.receive_all(bytes),
            BusStep::Reset(_) => self,
            BusStep::DelayMs(_) => self,
        }
    }

    /// What a sequence of steps does.
    pub open spec fn run(self, steps: Seq<BusStep>) -> Panel
        decreases steps.len(),
    {
        if steps.len() == 0 {
            self
        } else {
            self.run(steps.drop_last()).step(steps.last())
        }
    }

    /// The window holds at least one pixel.
    pub open spec fn window_ok(self) -> bool {
        self.x0 <= self.x1 && self.y0 <= self.y1
    }
}

/// The panel takes one sequence after another as it takes their concatenation.
pub proof fn run_concat(panel: Panel, a: Seq<BusStep>, b: Seq<BusStep>)
    ensures
        panel.run(a + b) == panel.run(a).run(b),
    decreases b.len(),
{
    if b.len() == 0 {
        assert(a + b =~= a);
    } else {
        run_concat(panel, a, b.drop_last());
        assert((a + b).drop_last() =~= a + b.drop_last());
    }
}

proof fn receive_all_concat(panel: Panel, a: Seq<u8>, b: Seq<u8>)
    ensures
        panel.receive_all(a + b) == panel.receive_all(a).receive_all(b),
    decreases b.len(),
{
    if b.len() == 0 {
        assert(a + b =~= a);
    } else {
        receive_all_concat(panel, a, b.drop_last());
        assert((a + b).drop_last() =~= a + b.drop_last());
    }
}

proof fn lemma_command(panel: Panel, cmd: u8)
    ensures
        panel.run(command_steps(cmd)) == (Panel {
            data_mode: false,
            command: cmd,
            count: 0,
            ..panel
        }),
{
    let s = command_steps(cmd);
    reveal_with_fuel(Panel::run, 3);
    reveal_with_fuel(Panel::receive_all, 2);
    assert(s.drop_last().drop_last().len() == 0);
    assert(s.drop_last().last() == BusStep::DataMode(false));
    assert(s.last() == BusStep::Write(seq![cmd]));
    assert(seq![cmd].drop_last().len() == 0);
}

proof fn lemma_command_with_data(panel: Panel, cmd: u8, data: Seq<u8>)
    ensures
        panel.run(command_with_data_steps(cmd, data)) == (Panel {
            data_mode: true,
            command: cmd,
            count: 0,
            ..panel
        }).receive_all(data),
{
    let tail = seq![BusStep::DataMode(true), BusStep::Write(data)];
    lemma_command(panel, cmd);
    run_concat(panel, command_steps(cmd), tail);
    reveal_with_fuel(Panel::run, 3);
    assert(tail.drop_last().drop_last().len() == 0);
    assert(tail.drop_last().last() == BusStep::DataMode(true));
}

proof fn lemma_bounds(panel: Panel, first: u8, last: u8)
    requires
        panel.data_mode,
        panel.count == 0,
    ensures
        panel.receive_all(seq![0u8, first, 0u8, last]) == (Panel {
            count: 4,
            high: 0,
            x0: if panel.command == 0x2A {
                first as int
            } else {
                panel.x0
            },
            x1: if panel.command == 0x2A {
                last as int
            } else {
                panel.x1
            },
            y0: if panel.command == 0x2B {
                first as int
            } else {
                panel.y0
            },
            y1: if panel.command == 0x2B {
                last as int
            } else {
                panel.y1
            },
            ..panel
        }) || panel.command == 0x2C,
{
    let b = seq![0u8, first, 0u8, last];
    reveal_with_fuel(Panel::receive_all, 5);
    assert(b.drop_last() =~= seq![0u8, first, 0u8]);
    assert(b.drop_last().drop_last() =~= seq![0u8, first]);
    assert(b.drop_last().drop_last().drop_last() =~= seq![0u8]);
    assert(b.drop_last().drop_last().drop_last().drop_last() =~= seq![]);
}

/// Selecting a window opens it for pixels and stores none.
pub proof fn window_selects(panel: Panel, x0: u8, y0: u8, x1: u8, y1: u8)
    ensures
        panel.run(raw_window_steps(x0, y0, x1, y1)) == (Panel {
            data_mode: false,
            command: 0x2C,
            count: 0,
            high: 0,
            x0: x0 as int,
            x1: x1 as int,
            y0: y0 as int,
            y1: y1 as int,
            memory: panel.memory,
        }),
{
    let columns = command_with_data_steps(0x2A, seq![0u8, x0, 0u8, x1]);
    let rows = command_with_data_steps(0x2B, seq![0u8, y0, 0u8, y1]);
    run_concat(panel, columns + rows, command_steps(0x2C));
    run_concat(panel, columns, rows);
    lemma_command_with_data(panel, 0x2A, seq![0u8, x0, 0u8, x1]);
    lemma_bounds(Panel { data_mode: true, command: 0x2A, count: 0, ..panel }, x0, x1);
    let p1 = panel.run(columns);
    lemma_command_with_data(p1, 0x2B, seq![0u8, y0, 0u8, y1]);
    lemma_bounds(Panel { data_mode: true, command: 0x2B, count: 0, ..p1 }, y0, y1);
    lemma_command(p1.run(rows), 0x2C);
}

/// The first `64 * k` bytes of a stream are what its first `k` transfers carry.
proof fn lemma_transfers(panel: Panel, color: u16, len: nat, k: nat)
    requires
        k <= (len + 63) / 64,
    ensures
        panel.run(transfers(color, len).take(k as int)) == panel.receive_all(
            stripe(
                color,
                if 64 * k <= len {
                    64 * k
                } else {
                    len
                },
            ),
        ),
    decreases k,
{
    let steps = transfers(color, len);
    if k == 0 {
        assert(stripe(color, 0).len() == 0);
    } else {
        let j = (k - 1) as nat;
        lemma_transfers(panel, color, len, j);
        assert(steps.take(k as int).drop_last() =~= steps.take(j as int));
        let part = stripe(color, transfer_len(len, j as int));
        assert(steps.take(k as int).last() == BusStep::Write(part));
        receive_all_concat(panel, stripe(color, 64 * j), part);
        let sent = stripe(
            color,
            if 64 * k <= len {
                64 * k
            } else {
                len
            },
        );
        assert(stripe(color, 64 * j) + part =~= sent);
    }
}

/// In a stream of pixels, pixel number `(r - y0) * w + (c - x0)` goes to column `c` of
/// row `r`, and no other pixel does before the window is full.
proof fn lemma_cursor(panel: Panel, k: int, c: int, r: int)
    requires
        panel.window_ok(),
        0 <= k < (panel.x1 - panel.x0 + 1) * (panel.y1 - panel.y0 + 1),
    ensures
        (c == panel.column(k) && r == panel.row(k)) <==> (panel.x0 <= c <= panel.x1 && panel.y0 <= r
            <= panel.y1 && (r - panel.y0) * (panel.x1 - panel.x0 + 1) + (c - panel.x0) == k),
{
    let w = panel.x1 - panel.x0 + 1;
    let h = panel.y1 - panel.y0 + 1;
    lemma_fundamental_div_mod(k, w);
    assert(0 <= k / w < h) by (nonlinear_arith)
        requires
            0 <= k < w * h,
            w > 0,
    ;
    assert(0 <= k % w < w) by (nonlinear_arith)
        requires
            w > 0,
    ;
    lemma_small_mod((k / w) as nat, h as nat);
    assert(w * (k / w) == (k / w) * w) by (nonlinear_arith);
    if panel.x0 <= c <= panel.x1 && panel.y0 <= r <= panel.y1 && (r - panel.y0) * w + (c - panel.x0)
        == k {
        lemma_fundamental_div_mod_converse(k, w, r - panel.y0, c - panel.x0);
    }
}

/// The first `n` pixels of a stream in one colour fill the window row by row.
proof fn lemma_pixels(panel: Panel, color: u16, n: nat)
    requires
        panel.data_mode,
        panel.command == 0x2C,
        panel.count == 0,
        panel.window_ok(),
        n <= (panel.x1 - panel.x0 + 1) * (panel.y1 - panel.y0 + 1),
    ensures
        ({
            let after = panel.receive_all(stripe(color, 2 * n));
            &&& after.data_mode
            &&& after.command == 0x2C
            &&& after.count == 2 * n
            &&& after.x0 == panel.x0
            &&& after.x1 == panel.x1
            &&& after.y0 == panel.y0
            &&& after.y1 == panel.y1
            &&& forall|c: int, r: int|
                #[trigger] (after.memory)(c, r) == if panel.x0 <= c <= panel.x1 && panel.y0 <= r
                    <= panel.y1 && (r - panel.y0) * (panel.x1 - panel.x0 + 1) + (c - panel.x0) < n {
                    color
                } else {
                    (panel.memory)(c, r)
                }
        }),
    decreases n,
{
    let all = stripe(color, 2 * n);
    let w = panel.x1 - panel.x0 + 1;
    if n == 0 {
        let after = panel.receive_all(all);
        assert forall|c: int, r: int|
            #[trigger] (after.memory)(c, r) == if panel.x0 <= c <= panel.x1 && panel.y0 <= r
                <= panel.y1 && (r - panel.y0) * w + (c - panel.x0) < n {
                color
            } else {
                (panel.memory)(c, r)
            } by {
            if panel.y0 <= r {
                assert((r - panel.y0) * w >= 0) by (nonlinear_arith)
                    requires
                        r >= panel.y0,
                        w > 0,
                ;
            }
        }
    } else {
        let k = (n - 1) as nat;
        lemma_pixels(panel, color, k);
        reveal_with_fuel(Panel::receive_all, 3);
        assert(all.drop_last().drop_last() =~= stripe(color, 2 * k));
        let before = panel.receive_all(stripe(color, 2 * k));
        let after = panel.receive_all(all);
        assert(after == before.receive((color / 256) as u8).receive((color % 256) as u8));
        assert forall|c: int, r: int|
            #[trigger] (after.memory)(c, r) == if panel.x0 <= c <= panel.x1 && panel.y0 <= r
                <= panel.y1 && (r - panel.y0) * w + (c - panel.x0) < n {
                color
            } else {
                (panel.memory)(c, r)
            } by {
            lemma_cursor(before, k as int, c, r);
        }
    }
}

/// A fill of as many pixels as the selected window holds paints that window, whatever
/// was there, and nothing else.
pub proof fn window_fill_paints(
    panel: Panel,
    x0: u8,
    y0: u8,
    x1: u8,
    y1: u8,
    pixels: nat,
    color: u16,
)
    requires
        x0 <= x1,
        y0 <= y1,
        pixels == (x1 - x0 + 1) * (y1 - y0 + 1),
    ensures
        forall|c: int, r: int|
            #[trigger] (panel.run(
                raw_window_steps(x0, y0, x1, y1) + fill_steps(pixels, color),
            ).memory)(c, r) == if x0 <= c <= x1 && y0 <= r <= y1 {
                color
            } else {
                (panel.memory)(c, r)
            },
{
    let w = x1 - x0 + 1;
    let h = y1 - y0 + 1;
    let n = pixels;
    let window = raw_window_steps(x0, y0, x1, y1);
    window_selects(panel, x0, y0, x1, y1);
    let open = panel.run(window);
    let ready = Panel { data_mode: true, ..open };
    let enter = seq![BusStep::DataMode(true)];
    let stream = transfers(color, 2 * n);
    run_concat(panel, window, fill_steps(n, color));
    run_concat(open, enter, stream);
    reveal_with_fuel(Panel::run, 2);
    assert(enter.drop_last().len() == 0);
    assert(open.run(enter) == ready);
    lemma_transfers(ready, color, 2 * n, stream.len());
    assert(stream.take(stream.len() as int) =~= stream);
    lemma_pixels(ready, color, n);
    let after = panel.run(window + fill_steps(n, color));
    assert forall|c: int, r: int|
        #[trigger] (after.memory)(c, r) == if x0 <= c <= x1 && y0 <= r <= y1 {
            color
        } else {
            (panel.memory)(c, r)
        } by {
        if x0 <= c <= x1 && y0 <= r <= y1 {
            assert((r - y0) * w + (c - x0) < w * h) by (nonlinear_arith)
                requires
                    r - y0 <= h - 1,
                    c - x0 < w,
                    w > 0,
            ;
        }
    }
}

/// A rectangle paints the positions that it covers in the visible area, whatever was
/// there, and leaves everything else in the panel's memory as it was.
pub proof fn rect_paints(panel: Panel, x: u8, y: u8, w: u8, h: u8, color: u16)
    ensures
        forall|c: int, r: int|
            #[trigger] (panel.run(rect_steps(x, y, w, h, color)).memory)(c, r) == if x <= c
                - LCD_COL_OFFSET < x + w && c - LCD_COL_OFFSET < 128 && y <= r - LCD_ROW_OFFSET < y
                + h && r - LCD_ROW_OFFSET < 128 {
                color
            } else {
                (panel.memory)(c, r)
            },
{
    if w == 0 || h == 0 || x >= 128 || y >= 128 {
    } else {
        let x1 = span_end(x, w);
        let y1 = span_end(y, h);
        let cols = x1 - x + 1;
        let rows = y1 - y + 1;
        assert(cols * rows >= 0) by (nonlinear_arith)
            requires
                cols > 0,
                rows > 0,
        ;
        let left = (x + LCD_COL_OFFSET) as u8;
        let top = (y + LCD_ROW_OFFSET) as u8;
        let right = (x1 + LCD_COL_OFFSET) as u8;
        let bottom = (y1 + LCD_ROW_OFFSET) as u8;
        assert(right - left + 1 == cols && bottom - top + 1 == rows);
        window_fill_paints(panel, left, top, right, bottom, (cols * rows) as nat, color);
    }
}

/// Clearing paints the panel's whole memory of 132 columns and 132 rows, the visible
/// area included.
pub proof fn clear_paints(panel: Panel, color: u16)
    ensures
        forall|c: int, r: int|
            #[trigger] (panel.run(clear_steps(color)).memory)(c, r) == if 0 <= c < 132 && 0 <= r
                < 132 {
                color
            } else {
                (panel.memory)(c, r)
            },
{
    let first = raw_window_steps(0, 0, 131, 131) + fill_steps(132 * 132, color);
    let second = window_steps(0, 0, 127, 127) + fill_steps(128 * 128, color);
    assert(clear_steps(color) =~= first + second);
    run_concat(panel, first, second);
    window_fill_paints(panel, 0, 0, 131, 131, 132 * 132, color);
    window_fill_paints(panel.run(first), 4, 3, 131, 130, 128 * 128, color);
}

} // verus!
