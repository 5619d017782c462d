//! Text console over an owned cell buffer.
//!
//! The console is an explicitly owned, passed-down context object: cursor
//! position and color live in the value, not in process-wide state, and
//! every cell write is bounds-checked against the owned buffer rather than
//! performed through raw pointer arithmetic over a fixed address. Each cell
//! holds one character byte in its low half and the color attribute in its
//! high half, as VGA text mode lays them out.

use vstd::prelude::*;

verus! {

/// Columns of the text screen.
pub const VGA_WIDTH: usize = 80;

/// Rows of the text screen.
pub const VGA_HEIGHT: usize = 25;

/// Cells of the whole screen.
pub const VGA_CELLS: usize = VGA_WIDTH * VGA_HEIGHT;

/// Default color attribute: white on black.
pub const DEFAULT_COLOR: u8 = 0x0F;

/// The mathematical state of a console: its cells, cursor, and color.
#[verifier::ext_equal]
pub ghost struct ConsoleView {
    pub cells: Seq<u16>,
    pub x: nat,
    pub y: nat,
    pub color: u8,
}

/// One cell value: the color attribute in the high byte, the character byte
/// in the low byte.
pub open spec fn spec_cell(color: u8, byte: u8) -> u16 {
    (((color as int) * 256) + (byte as int)) as u16
}

/// A blank cell: a space under the given color.
pub open spec fn spec_blank(color: u8) -> u16 {
    spec_cell(color, 32)
}

/// The byte a character is stored as: its code point if ASCII, `?` otherwise.
pub open spec fn spec_char_byte(c: char) -> u8 {
    if (c as u32) < 128 {
        (c as u32) as u8
    } else {
        63
    }
}

impl ConsoleView {
    /// Well-formedness: a full screen of cells and an in-bounds cursor.
    pub open spec fn wf(self) -> bool {
        &&& self.cells.len() == VGA_CELLS
        &&& self.x < VGA_WIDTH
        &&& self.y < VGA_HEIGHT
    }
}

/// Scrolling moves every row up by one and blanks the last row under the
/// current color; the cursor is left untouched (callers reposition it).
pub open spec fn spec_scroll(v: ConsoleView) -> ConsoleView {
    ConsoleView {
        cells: Seq::new(
            VGA_CELLS as nat,
            |i: int|
                if i < VGA_CELLS - VGA_WIDTH {
                    v.cells[i + VGA_WIDTH]
                } else {
                    spec_blank(v.color)
                },
        ),
        ..v
    }
}

/// What printing one character does: a newline returns the cursor to column
/// zero and advances the row; any other character is stored at the cursor,
/// which then advances with wrap-around. Running past the last row scrolls.
pub open spec fn spec_putchar(v: ConsoleView, c: char) -> ConsoleView {
    if c == '\n' {
        if v.y + 1 < VGA_HEIGHT {
            ConsoleView { x: 0nat, y: v.y + 1, ..v }
        } else {
            ConsoleView { x: 0nat, y: (VGA_HEIGHT - 1) as nat, ..spec_scroll(v) }
        }
    } else {
        let written = ConsoleView {
            cells: v.cells.update(
                (v.y * (VGA_WIDTH as nat) + v.x) as int,
                spec_cell(v.color, spec_char_byte(c)),
            ),
            ..v
        };
        if v.x + 1 < VGA_WIDTH {
            ConsoleView { x: v.x + 1, ..written }
        } else if v.y + 1 < VGA_HEIGHT {
            ConsoleView { x: 0nat, y: v.y + 1, ..written }
        } else {
            ConsoleView { x: 0nat, y: (VGA_HEIGHT - 1) as nat, ..spec_scroll(written) }
        }
    }
}

/// What clearing does: every cell blanked under the current color and the
/// cursor returned to the origin.
pub open spec fn spec_clear(v: ConsoleView) -> ConsoleView {
    ConsoleView {
        cells: Seq::new(VGA_CELLS as nat, |i: int| spec_blank(v.color)),
        x: 0nat,
        y: 0nat,
        ..v
    }
}

/// What printing a character sequence does: each character in order.
pub open spec fn spec_print(v: ConsoleView, s: Seq<char>) -> ConsoleView
    decreases s.len(),
{
    if s.len() == 0 {
        v
    } else {
        spec_print(spec_putchar(v, s.first()), s.drop_first())
    }
}

/// Printing one more character at the end is one more `spec_putchar`.
pub proof fn lemma_print_snoc(v: ConsoleView, s: Seq<char>, c: char)
    ensures
        spec_print(v, s.push(c)) == spec_putchar(spec_print(v, s), c),
    decreases s.len(),
{
    reveal_with_fuel(spec_print, 3);
    if s.len() == 0 {
        assert(s.push(c).first() == c);
        assert(s.push(c).drop_first() =~= Seq::<char>::empty());
    } else {
        assert(s.push(c).first() == s.first());
        assert(s.push(c).drop_first() =~= s.drop_first().push(c));
        lemma_print_snoc(spec_putchar(v, s.first()), s.drop_first(), c);
    }
}

/// A bounds-checked text console over an owned buffer.
pub struct Console {
    pub cells: Vec<u16>,
    pub cursor_x: usize,
    pub cursor_y: usize,
    pub color: u8,
}

impl View for Console {
    type V = ConsoleView;

    open spec fn view(&self) -> ConsoleView {
        ConsoleView {
            cells: self.cells@,
            x: self.cursor_x as nat,
            y: self.cursor_y as nat,
            color: self.color,
        }
    }
}

impl Console {
    /// Well-formedness of the owned console.
    pub open spec fn wf(self) -> bool {
        self@.wf()
    }

    /// A fresh console: a full screen of blanks under the default color,
    /// cursor at the origin.
    pub fn new() -> (c: Console)
        ensures
            c.wf(),
            c@.x == 0,
            c@.y == 0,
            c@.color == DEFAULT_COLOR,
            forall|i: int| 0 <= i < VGA_CELLS ==> c@.cells[i] == spec_blank(DEFAULT_COLOR),
    {
        let mut cells: Vec<u16> = Vec::new();
        let blank: u16 = (DEFAULT_COLOR as u16) * 256 + 32;
        let mut i: usize = 0;
        while i < VGA_CELLS
            invariant
                i <= VGA_CELLS,
                cells@.len() == i,
                blank == spec_blank(DEFAULT_COLOR),
                forall|j: int| 0 <= j < i ==> cells@[j] == spec_blank(DEFAULT_COLOR),
            decreases VGA_CELLS - i,
        {
            cells.push(blank);
            i = i + 1;
        }
        Console { cells, cursor_x: 0, cursor_y: 0, color: DEFAULT_COLOR }
    }

    /// Returns the cursor to the origin; cells and color are untouched.
    pub fn init(&mut self)
        requires
            old(self).wf(),
        ensures
            final(self).wf(),
            final(self)@ == (ConsoleView { x: 0nat, y: 0nat, ..old(self)@ }),
    {
        self.cursor_x = 0;
        self.cursor_y = 0;
        proof {
            assert(self@ =~= (ConsoleView { x: 0nat, y: 0nat, ..old(self)@ }));
        }
    }

    /// Changes the color used by subsequent writes.
    pub fn set_color(&mut self, color: u8)
        requires
            old(self).wf(),
        ensures
            final(self).wf(),
            final(self)@ == (ConsoleView { color, ..old(self)@ }),
    {
        self.color = color;
        proof {
            assert(self@ =~= (ConsoleView { color, ..old(self)@ }));
        }
    }

    /// Blanks the entire screen under the current color and returns the
    /// cursor to the origin.
    pub fn clear_screen(&mut self)
        requires
            old(self).wf(),
        ensures
            final(self).wf(),
            final(self)@ == spec_clear(old(self)@),
    {
        let blank: u16 = (self.color as u16) * 256 + 32;
        let mut i: usize = 0;
        while i < VGA_CELLS
            invariant
                i <= VGA_CELLS,
                self.cells@.len() == VGA_CELLS,
                self.color == old(self).color,
                self.cursor_x == old(self).cursor_x,
                self.cursor_y == old(self).cursor_y,
                blank == spec_blank(old(self)@.color),
                forall|j: int| 0 <= j < i ==> self.cells@[j] == spec_blank(old(self)@.color),
            decreases VGA_CELLS - i,
        {
            self.cells.set(i, blank);
            i = i + 1;
        }
        self.cursor_x = 0;
        self.cursor_y = 0;
        proof {
            assert(self@.cells =~= spec_clear(old(self)@).cells);
            assert(self@ =~= spec_clear(old(self)@));
        }
    }

    /// Moves every row up by one and blanks the last row.
    fn scroll(&mut self)
        requires
            old(self).wf(),
        ensures
            final(self)@ == spec_scroll(old(self)@),
    {
        let mut i: usize = 0;
        while i < VGA_CELLS - VGA_WIDTH
            invariant
                i <= VGA_CELLS - VGA_WIDTH,
                self.cells@.len() == VGA_CELLS,
                self.color == old(self).color,
                self.cursor_x == old(self).cursor_x,
                self.cursor_y == old(self).cursor_y,
                forall|j: int| 0 <= j < i ==> self.cells@[j] == old(self).cells@[j + VGA_WIDTH],
                forall|j: int| i <= j < VGA_CELLS ==> self.cells@[j] == old(self).cells@[j],
            decreases VGA_CELLS - VGA_WIDTH - i,
        {
            let moved = self.cells[i + VGA_WIDTH];
            self.cells.set(i, moved);
            i = i + 1;
        }
        let blank: u16 = (self.color as u16) * 256 + 32;
        let mut k: usize = VGA_CELLS - VGA_WIDTH;
        while k < VGA_CELLS
            invariant
                VGA_CELLS - VGA_WIDTH <= k <= VGA_CELLS,
                self.cells@.len() == VGA_CELLS,
                self.color == old(self).color,
                self.cursor_x == old(self).cursor_x,
                self.cursor_y == old(self).cursor_y,
                blank == spec_blank(old(self)@.color),
                forall|j: int| 0 <= j < VGA_CELLS - VGA_WIDTH ==> self.cells@[j] == old(
                    self,
                ).cells@[j + VGA_WIDTH],
                forall|j: int| VGA_CELLS - VGA_WIDTH <= j < k ==> self.cells@[j] == spec_blank(
                    old(self)@.color,
                ),
            decreases VGA_CELLS - k,
        {
            self.cells.set(k, blank);
            k = k + 1;
        }
        proof {
            assert(self@.cells =~= spec_scroll(old(self)@).cells);
            assert(self@ =~= spec_scroll(old(self)@));
        }
    }

    /// Prints a single character, as `spec_putchar` states.
    pub fn putchar(&mut self, c: char)
        requires
            old(self).wf(),
        ensures
            final(self).wf(),
            final(self)@ == spec_putchar(old(self)@, c),
    {
        if c == '\n' {
            self.cursor_x = 0;
            if self.cursor_y + 1 < VGA_HEIGHT {
                self.cursor_y = self.cursor_y + 1;
            } else {
                self.scroll();
                self.cursor_y = VGA_HEIGHT - 1;
            }
            proof {
                assert(self@ =~= spec_putchar(old(self)@, c));
            }
        } else {
            let code = c as u32;
            let byte: u8 = if code < 128 {
                code as u8
            } else {
                63
            };
            let cell: u16 = (self.color as u16) * 256 + (byte as u16);
            let idx = self.cursor_y * VGA_WIDTH + self.cursor_x;
            self.cells.set(idx, cell);
            if self.cursor_x + 1 < VGA_WIDTH {
                self.cursor_x = self.cursor_x + 1;
            } else if self.cursor_y + 1 < VGA_HEIGHT {
                self.cursor_x = 0;
                self.cursor_y = self.cursor_y + 1;
            } else {
                self.cursor_x = 0;
                self.scroll();
                self.cursor_y = VGA_HEIGHT - 1;
            }
            proof {
                assert(self@ =~= spec_putchar(old(self)@, c));
            }
        }
    }

    /// Prints a string, character by character.
    pub fn print(&mut self, s: &str)
        requires
            old(self).wf(),
        ensures
            final(self).wf(),
            final(self)@ == spec_print(old(self)@, s@),
    {
        let n = s.unicode_len();
        let mut i: usize = 0;
        while i < n
            invariant
                i <= n,
                n == s@.len(),
                self.wf(),
                self@ == spec_print(old(self)@, s@.subrange(0, i as int)),
            decreases n - i,
        {
            let c = s.get_char(i);
            self.putchar(c);
            proof {
                assert(s@.subrange(0, i + 1) =~= s@.subrange(0, i as int).push(s@[i as int]));
                lemma_print_snoc(old(self)@, s@.subrange(0, i as int), s@[i as int]);
            }
            i = i + 1;
        }
        proof {
            assert(s@.subrange(0, n as int) =~= s@);
        }
    }

    /// Prints a string followed by a newline.
    pub fn println(&mut self, s: &str)
        requires
            old(self).wf(),
        ensures
            final(self).wf(),
            final(self)@ == spec_putchar(spec_print(old(self)@, s@), '\n'),
    {
        self.print(s);
        self.putchar('\n');
    }

    /// What a panic handler shows before halting: the panic banner in
    /// white-on-red, written at the cursor.
    pub fn panic_banner(&mut self)
        requires
            old(self).wf(),
        ensures
            final(self).wf(),
            final(self)@ == spec_print(
                (ConsoleView { color: 0x4F, ..old(self)@ }),
                "PANIC!"@,
            ),
    {
        self.set_color(0x4F);
        self.print("PANIC!");
    }

    /// Bounds-checked read of the cell at (row, column); for inspection and
    /// diagnostics.
    pub fn cell_at(&self, row: usize, column: usize) -> (r: u16)
        requires
            self.wf(),
            row < VGA_HEIGHT,
            column < VGA_WIDTH,
        ensures
            r == self@.cells[row * (VGA_WIDTH as int) + column],
    {
        self.cells[row * VGA_WIDTH + column]
    }
}

} // verus!
