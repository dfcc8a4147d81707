//! The character framebuffer and the console writer on top of it.
//!
//! The framebuffer is an 80x25 grid of cells, two bytes per cell: the
//! character byte, then a packed colour attribute (low four bits the
//! foreground, high four bits the background).  The writer holds the cursor
//! column and the current foreground colour and drives the grid byte by
//! byte: a newline, or writing past the last column, scrolls every row up
//! one and clears the new bottom row.  Bytes outside printable ASCII are
//! replaced by the fallback glyph `0xFE` so that control bytes never reach
//! the device raw.
use vstd::prelude::*;

verus! {

/// Rows of the visible grid.
pub const BUFFER_HEIGHT: usize = 25;
/// Columns of the visible grid.
pub const BUFFER_WIDTH: usize = 80;
/// Cells of the whole grid.
pub const BUFFER_CELLS: usize = 2000;

/// The glyph written in place of a byte outside printable ASCII.
pub const FALLBACK_GLYPH: u8 = 0xFE;

/// The sixteen colours of the device palette, in hardware index order.
#[derive(Clone, Copy, PartialEq, Eq, Structural, Debug)]
pub enum Color {
    Black,
    Blue,
    Green,
    Cyan,
    Red,
    Magenta,
    Brown,
    LightGray,
    DarkGray,
    LightBlue,
    LightGreen,
    LightCyan,
    LightRed,
    Pink,
    Yellow,
    White,
}

impl Color {
    /// The palette index the hardware gives this colour.
    pub open spec fn index_spec(self) -> u8 {
        match self {
            Color::Black => 0,
            Color::Blue => 1,
            Color::Green => 2,
            Color::Cyan => 3,
            Color::Red => 4,
            Color::Magenta => 5,
            Color::Brown => 6,
            Color::LightGray => 7,
            Color::DarkGray => 8,
            Color::LightBlue => 9,
            Color::LightGreen => 10,
            Color::LightCyan => 11,
            Color::LightRed => 12,
            Color::Pink => 13,
            Color::Yellow => 14,
            Color::White => 15,
        }
    }

    /// The palette index as the hardware takes it.
    pub fn as_u8(self) -> (r: u8)
        ensures
            r == self.index_spec(),
    {
        match self {
            Color::Black => 0,
            Color::Blue => 1,
            Color::Green => 2,
            Color::Cyan => 3,
            Color::Red => 4,
            Color::Magenta => 5,
            Color::Brown => 6,
            Color::LightGray => 7,
            Color::DarkGray => 8,
            Color::LightBlue => 9,
            Color::LightGreen => 10,
            Color::LightCyan => 11,
            Color::LightRed => 12,
            Color::Pink => 13,
            Color::Yellow => 14,
            Color::White => 15,
        }
    }
}

/// The packed attribute byte: background in the high nibble, foreground in
/// the low nibble.
pub open spec fn color_code_spec(fg: Color, bg: Color) -> u8 {
    (bg.index_spec() * 16 + fg.index_spec()) as u8
}

/// Packs a foreground and a background colour into one attribute byte.
pub fn color_code(fg: Color, bg: Color) -> (r: u8)
    ensures
        r == color_code_spec(fg, bg),
{
    bg.as_u8() * 16 + fg.as_u8()
}

/// One cell of the grid: a character byte and its attribute byte.
#[derive(Clone, Copy, PartialEq, Eq, Structural, Debug)]
pub struct ScreenChar {
    pub ascii_character: u8,
    pub color_code: u8,
}

/// The cell a cleared position holds: the blank character with both
/// colours at the palette's default (black on black).
pub open spec fn default_cell() -> ScreenChar {
    ScreenChar { ascii_character: 0, color_code: 0 }
}

impl Default for ScreenChar {
    fn default() -> (r: Self)
        ensures
            r == default_cell(),
    {
        ScreenChar { ascii_character: 0, color_code: 0 }
    }
}

/// The character grid, stored row-major: the cell at row `r`, column `c`
/// stands at index `r * BUFFER_WIDTH + c`.
pub struct VgaBuffer {
    cells: Vec<ScreenChar>,
}

/// The cell at a row and column of a row-major grid.
pub open spec fn cell_at(cells: Seq<ScreenChar>, row: int, col: int) -> ScreenChar {
    cells[row * BUFFER_WIDTH + col]
}

/// The grid after every row moved up one and the bottom row cleared.
pub open spec fn scrolled(cells: Seq<ScreenChar>) -> Seq<ScreenChar> {
    cells.subrange(BUFFER_WIDTH as int, BUFFER_CELLS as int)
        + Seq::new(BUFFER_WIDTH as nat, |i: int| default_cell())
}

/// The grid after one cell of the bottom row was overwritten.
pub open spec fn printed_at(cells: Seq<ScreenChar>, col: int, cell: ScreenChar) -> Seq<
    ScreenChar,
> {
    cells.update((BUFFER_HEIGHT - 1) * BUFFER_WIDTH + col, cell)
}

impl View for VgaBuffer {
    type V = Seq<ScreenChar>;

    closed spec fn view(&self) -> Seq<ScreenChar> {
        self.cells@
    }
}

impl VgaBuffer {
    /// A grid is well formed when it holds exactly the visible cells.
    pub open spec fn wf(self) -> bool {
        self@.len() == BUFFER_CELLS
    }

    /// A freshly cleared grid: every cell default.
    pub fn new() -> (r: Self)
        ensures
            r.wf(),
            forall|i: int| 0 <= i < BUFFER_CELLS ==> r@[i] == default_cell(),
    {
        let mut cells: Vec<ScreenChar> = Vec::new();
        let mut i: usize = 0;
        while i < BUFFER_CELLS
            invariant
                i == cells@.len(),
                i <= BUFFER_CELLS,
                forall|j: int| 0 <= j < i ==> cells@[j] == default_cell(),
            decreases BUFFER_CELLS - i,
        {
            cells.push(ScreenChar { ascii_character: 0, color_code: 0 });
            i = i + 1;
        }
        VgaBuffer { cells }
    }

    /// Reads one cell, for callers that inspect the screen.
    pub fn char_at(&self, row: usize, col: usize) -> (r: ScreenChar)
        requires
            self.wf(),
            row < BUFFER_HEIGHT,
            col < BUFFER_WIDTH,
        ensures
            r == cell_at(self@, row as int, col as int),
    {
        self.cells[row * BUFFER_WIDTH + col]
    }

    /// Writes one cell at the bottom visible row, packing the byte with the
    /// colour pair.
    pub fn print_char(&mut self, col: usize, c: u8, fcolor: Color, bcolor: Color)
        requires
            old(self).wf(),
            col < BUFFER_WIDTH,
        ensures
            final(self).wf(),
            final(self)@ == printed_at(
                old(self)@,
                col as int,
                ScreenChar { ascii_character: c, color_code: color_code_spec(fcolor, bcolor) },
            ),
    {
        let cell = ScreenChar { ascii_character: c, color_code: color_code(fcolor, bcolor) };
        self.cells.set((BUFFER_HEIGHT - 1) * BUFFER_WIDTH + col, cell);
    }

    /// Shifts every row's cells up by one and clears the new bottom row.
    pub fn print_newline(&mut self)
        requires
            old(self).wf(),
        ensures
            final(self).wf(),
            final(self)@ == scrolled(old(self)@),
    {
        let mut i: usize = 0;
        while i < BUFFER_CELLS - BUFFER_WIDTH
            invariant
                old(self).wf(),
                self@.len() == BUFFER_CELLS,
                i <= BUFFER_CELLS - BUFFER_WIDTH,
                forall|j: int| 0 <= j < i ==> self@[j] == old(self)@[j + BUFFER_WIDTH],
                forall|j: int| i <= j < BUFFER_CELLS ==> self@[j] == old(self)@[j],
            decreases BUFFER_CELLS - BUFFER_WIDTH - i,
        {
            let moved = self.cells[i + BUFFER_WIDTH];
            self.cells.set(i, moved);
            i = i + 1;
        }
        let mut c: usize = 0;
        while c < BUFFER_WIDTH
            invariant
                old(self).wf(),
                self@.len() == BUFFER_CELLS,
                c <= BUFFER_WIDTH,
                forall|j: int|
                    0 <= j < BUFFER_CELLS - BUFFER_WIDTH ==> self@[j] == old(self)@[j
                        + BUFFER_WIDTH],
                forall|j: int|
                    BUFFER_CELLS - BUFFER_WIDTH <= j < BUFFER_CELLS - BUFFER_WIDTH + c
                        ==> self@[j] == default_cell(),
            decreases BUFFER_WIDTH - c,
        {
            self.cells.set(BUFFER_CELLS - BUFFER_WIDTH + c, ScreenChar::default());
            c = c + 1;
        }
        proof {
            assert(self@ =~= scrolled(old(self)@));
        }
    }
}

/// The abstract state of the console: the grid, the cursor column and the
/// current foreground colour.
#[verifier::ext_equal]
pub struct ConsoleView {
    pub cells: Seq<ScreenChar>,
    pub col: int,
    pub color: Color,
}

impl ConsoleView {
    /// Well formed: the grid holds the visible cells and the cursor sits on
    /// a column or just past the last one.
    pub open spec fn wf(self) -> bool {
        &&& self.cells.len() == BUFFER_CELLS
        &&& 0 <= self.col <= BUFFER_WIDTH
    }

    /// The same console with another foreground colour.
    pub open spec fn with_color(self, color: Color) -> ConsoleView {
        ConsoleView { color, ..self }
    }

    /// A freshly cleared console: every cell default, cursor at column 0.
    pub open spec fn cleared(self) -> bool {
        &&& self.col == 0
        &&& forall|i: int| 0 <= i < BUFFER_CELLS ==> self.cells[i] == default_cell()
    }
}

/// Bytes the console shows as themselves: printable ASCII.
pub open spec fn printable(c: u8) -> bool {
    0x20 <= c <= 0x7E
}

/// The glyph a byte is shown as: itself when printable, else the fallback.
pub open spec fn glyph(c: u8) -> u8 {
    if printable(c) {
        c
    } else {
        FALLBACK_GLYPH
    }
}

/// The console after one byte was written: a newline scrolls and returns
/// the cursor to column 0; any other byte first wraps the same way if the
/// cursor is past the last column, then lands at the cursor with the
/// current colours.
pub open spec fn write_byte_spec(s: ConsoleView, c: u8) -> ConsoleView {
    if c == 10u8 {
        ConsoleView { cells: scrolled(s.cells), col: 0, color: s.color }
    } else {
        let cells0 = if s.col == BUFFER_WIDTH {
            scrolled(s.cells)
        } else {
            s.cells
        };
        let col0: int = if s.col == BUFFER_WIDTH {
            0
        } else {
            s.col
        };
        ConsoleView {
            cells: printed_at(
                cells0,
                col0,
                ScreenChar {
                    ascii_character: glyph(c),
                    color_code: color_code_spec(s.color, Color::Black),
                },
            ),
            col: col0 + 1,
            color: s.color,
        }
    }
}

/// The console after a byte sequence was written, first byte first.
pub open spec fn write_bytes_spec(s: ConsoleView, bytes: Seq<u8>) -> ConsoleView
    decreases bytes.len(),
{
    if bytes.len() == 0 {
        s
    } else {
        write_bytes_spec(write_byte_spec(s, bytes[0]), bytes.drop_first())
    }
}

/// Writing one byte keeps the console well formed.
pub proof fn lemma_write_byte_wf(s: ConsoleView, c: u8)
    requires
        s.wf(),
    ensures
        write_byte_spec(s, c).wf(),
{
}

/// Writing a sequence keeps the console well formed.
pub proof fn lemma_write_bytes_wf(s: ConsoleView, bytes: Seq<u8>)
    requires
        s.wf(),
    ensures
        write_bytes_spec(s, bytes).wf(),
    decreases bytes.len(),
{
    if bytes.len() > 0 {
        lemma_write_byte_wf(s, bytes[0]);
        lemma_write_bytes_wf(write_byte_spec(s, bytes[0]), bytes.drop_first());
    }
}

/// Writing a sequence and then one byte is writing the extended sequence.
pub proof fn lemma_write_bytes_snoc(s: ConsoleView, bytes: Seq<u8>, c: u8)
    ensures
        write_bytes_spec(s, bytes.push(c)) == write_byte_spec(write_bytes_spec(s, bytes), c),
    decreases bytes.len(),
{
    if bytes.len() == 0 {
        assert(bytes.push(c)[0] == c);
        assert(bytes.push(c).drop_first() =~= Seq::<u8>::empty());
        assert(write_bytes_spec(s, bytes.push(c)) == write_bytes_spec(
            write_byte_spec(s, c),
            Seq::<u8>::empty(),
        ));
    } else {
        assert(bytes.push(c)[0] == bytes[0]);
        assert(bytes.push(c).drop_first() =~= bytes.drop_first().push(c));
        lemma_write_bytes_snoc(write_byte_spec(s, bytes[0]), bytes.drop_first(), c);
    }
}

/// The console writer: the grid together with the cursor column and the
/// current foreground colour.
pub struct VgaBufferWriter {
    col: usize,
    color: Color,
    buffer: VgaBuffer,
}

impl View for VgaBufferWriter {
    type V = ConsoleView;

    closed spec fn view(&self) -> ConsoleView {
        ConsoleView { cells: self.buffer@, col: self.col as int, color: self.color }
    }
}

impl VgaBufferWriter {
    pub open spec fn wf(self) -> bool {
        self@.wf()
    }

    /// A writer over a freshly cleared grid, white on black.
    pub fn new() -> (r: Self)
        ensures
            r.wf(),
            r@.cleared(),
            r@.color == Color::White,
    {
        VgaBufferWriter { col: 0, color: Color::White, buffer: VgaBuffer::new() }
    }

    /// The cursor column, for callers that inspect the console.
    pub fn cursor_col(&self) -> (r: usize)
        ensures
            r == self@.col,
    {
        self.col
    }

    /// Reads one cell of the grid, for callers that inspect the console.
    pub fn char_at(&self, row: usize, col: usize) -> (r: ScreenChar)
        requires
            self.wf(),
            row < BUFFER_HEIGHT,
            col < BUFFER_WIDTH,
        ensures
            r == cell_at(self@.cells, row as int, col as int),
    {
        self.buffer.char_at(row, col)
    }

    /// Writes one byte under the wrap policy.
    pub fn write_byte(&mut self, c: u8)
        requires
            old(self).wf(),
        ensures
            final(self).wf(),
            final(self)@ == write_byte_spec(old(self)@, c),
    {
        if c == 10 {
            self.buffer.print_newline();
            self.col = 0;
        } else {
            if self.col == BUFFER_WIDTH {
                self.buffer.print_newline();
                self.col = 0;
            }
            let g = if 0x20 <= c && c <= 0x7E {
                c
            } else {
                FALLBACK_GLYPH
            };
            self.buffer.print_char(self.col, g, self.color, Color::Black);
            self.col = self.col + 1;
        }
        proof {
            assert(self@ =~= write_byte_spec(old(self)@, c));
        }
    }

    /// Writes a text byte by byte under the wrap policy.
    pub fn write_bytes(&mut self, s: &[u8])
        requires
            old(self).wf(),
        ensures
            final(self).wf(),
            final(self)@ == write_bytes_spec(old(self)@, s@),
    {
        let n = s.len();
        let mut i: usize = 0;
        while i < n
            invariant
                n == s@.len(),
                i <= n,
                self.wf(),
                self@ == write_bytes_spec(old(self)@, s@.subrange(0, i as int)),
            decreases n - i,
        {
            proof {
                lemma_write_bytes_snoc(old(self)@, s@.subrange(0, i as int), s@[i as int]);
                assert(s@.subrange(0, i as int).push(s@[i as int]) =~= s@.subrange(
                    0,
                    i as int + 1,
                ));
            }
            self.write_byte(s[i]);
            i = i + 1;
        }
        proof {
            assert(s@.subrange(0, n as int) =~= s@);
        }
    }

    /// Writes a level tag in the level's colour, then the message and a
    /// newline in white.
    pub fn log(&mut self, level_color: Color, tag: &[u8], s: &[u8])
        requires
            old(self).wf(),
        ensures
            final(self).wf(),
            final(self)@ == write_bytes_spec(
                write_bytes_spec(old(self)@.with_color(level_color), tag@).with_color(
                    Color::White,
                ),
                s@ + seq![10u8],
            ),
    {
        self.print(level_color, tag);
        let ghost mid = write_bytes_spec(old(self)@.with_color(level_color), tag@).with_color(
            Color::White,
        );
        self.print(Color::White, s);
        self.write_byte(10);
        proof {
            lemma_write_bytes_snoc(mid, s@, 10u8);
            assert(s@.push(10u8) =~= s@ + seq![10u8]);
        }
    }

    /// Writes a text in the given foreground colour, which stays current.
    pub fn print(&mut self, color: Color, s: &[u8])
        requires
            old(self).wf(),
        ensures
            final(self).wf(),
            final(self)@ == write_bytes_spec(old(self)@.with_color(color), s@),
    {
        self.color = color;
        proof {
            assert(self@ =~= old(self)@.with_color(color));
        }
        self.write_bytes(s);
    }
}

/// The tag the trace level prefixes: `"[ TRACE ] "`.
pub open spec fn trace_tag() -> Seq<u8> {
    seq![0x5Bu8, 0x20, 0x54, 0x52, 0x41, 0x43, 0x45, 0x20, 0x5D, 0x20]
}

/// The tag the debug level prefixes: `"[ DEBUG ] "`.
pub open spec fn debug_tag() -> Seq<u8> {
    seq![0x5Bu8, 0x20, 0x44, 0x45, 0x42, 0x55, 0x47, 0x20, 0x5D, 0x20]
}

/// The tag the info level prefixes: `"[ INFO  ] "`.
pub open spec fn info_tag() -> Seq<u8> {
    seq![0x5Bu8, 0x20, 0x49, 0x4E, 0x46, 0x4F, 0x20, 0x20, 0x5D, 0x20]
}

/// The tag the warn level prefixes: `"[ WARN  ] "`.
pub open spec fn warn_tag() -> Seq<u8> {
    seq![0x5Bu8, 0x20, 0x57, 0x41, 0x52, 0x4E, 0x20, 0x20, 0x5D, 0x20]
}

/// The tag the error level prefixes: `"[ ERROR ] "`.
pub open spec fn error_tag() -> Seq<u8> {
    seq![0x5Bu8, 0x20, 0x45, 0x52, 0x52, 0x4F, 0x52, 0x20, 0x5D, 0x20]
}

/// What a leveled front-end leaves on the console: the tag in the level's
/// colour, then the message and a newline in white.
pub open spec fn logged(s: ConsoleView, level_color: Color, tag: Seq<u8>, msg: Seq<u8>) -> ConsoleView {
    write_bytes_spec(
        write_bytes_spec(s.with_color(level_color), tag).with_color(Color::White),
        msg + seq![10u8],
    )
}

impl VgaBufferWriter {
    /// Logs at trace level, tag in cyan.
    pub fn trace(&mut self, s: &[u8])
        requires
            old(self).wf(),
        ensures
            final(self).wf(),
            final(self)@ == logged(old(self)@, Color::Cyan, trace_tag(), s@),
    {
        let tag: Vec<u8> = vec![0x5B, 0x20, 0x54, 0x52, 0x41, 0x43, 0x45, 0x20, 0x5D, 0x20];
        proof {
            assert(tag@ =~= trace_tag());
        }
        self.log(Color::Cyan, tag.as_slice(), s);
    }

    /// Logs at debug level, tag in light blue.
    pub fn debug(&mut self, s: &[u8])
        requires
            old(self).wf(),
        ensures
            final(self).wf(),
            final(self)@ == logged(old(self)@, Color::LightBlue, debug_tag(), s@),
    {
        let tag: Vec<u8> = vec![0x5B, 0x20, 0x44, 0x45, 0x42, 0x55, 0x47, 0x20, 0x5D, 0x20];
        proof {
            assert(tag@ =~= debug_tag());
        }
        self.log(Color::LightBlue, tag.as_slice(), s);
    }

    /// Logs at info level, tag in green.
    pub fn info(&mut self, s: &[u8])
        requires
            old(self).wf(),
        ensures
            final(self).wf(),
            final(self)@ == logged(old(self)@, Color::Green, info_tag(), s@),
    {
        let tag: Vec<u8> = vec![0x5B, 0x20, 0x49, 0x4E, 0x46, 0x4F, 0x20, 0x20, 0x5D, 0x20];
        proof {
            assert(tag@ =~= info_tag());
        }
        self.log(Color::Green, tag.as_slice(), s);
    }

    /// Logs at warn level, tag in yellow.
    pub fn warn(&mut self, s: &[u8])
        requires
            old(self).wf(),
        ensures
            final(self).wf(),
            final(self)@ == logged(old(self)@, Color::Yellow, warn_tag(), s@),
    {
        let tag: Vec<u8> = vec![0x5B, 0x20, 0x57, 0x41, 0x52, 0x4E, 0x20, 0x20, 0x5D, 0x20];
        proof {
            assert(tag@ =~= warn_tag());
        }
        self.log(Color::Yellow, tag.as_slice(), s);
    }

    /// Logs at error level, tag in red.
    pub fn error(&mut self, s: &[u8])
        requires
            old(self).wf(),
        ensures
            final(self).wf(),
            final(self)@ == logged(old(self)@, Color::Red, error_tag(), s@),
    {
        let tag: Vec<u8> = vec![0x5B, 0x20, 0x45, 0x52, 0x52, 0x4F, 0x52, 0x20, 0x5D, 0x20];
        proof {
            assert(tag@ =~= error_tag());
        }
        self.log(Color::Red, tag.as_slice(), s);
    }
}

/// Writing never changes the current colour.
pub proof fn lemma_write_bytes_color(s: ConsoleView, bytes: Seq<u8>)
    ensures
        write_bytes_spec(s, bytes).color == s.color,
    decreases bytes.len(),
{
    if bytes.len() > 0 {
        lemma_write_bytes_color(write_byte_spec(s, bytes[0]), bytes.drop_first());
    }
}

/// Law: writing at most one row of printable bytes, none of them a
/// newline, to a freshly cleared console places exactly those bytes on the
/// bottom row at columns `[0, L)`, in the current colour on black, and
/// every other cell keeps the default.
pub proof fn lemma_write_line_on_cleared(s0: ConsoleView, bytes: Seq<u8>)
    requires
        s0.wf(),
        s0.cleared(),
        bytes.len() <= BUFFER_WIDTH,
        forall|i: int| 0 <= i < bytes.len() ==> printable(bytes[i]),
    ensures
        write_bytes_spec(s0, bytes).col == bytes.len(),
        forall|i: int|
            0 <= i < bytes.len() ==> cell_at(
                write_bytes_spec(s0, bytes).cells,
                BUFFER_HEIGHT - 1,
                i,
            ) == (ScreenChar {
                ascii_character: bytes[i],
                color_code: color_code_spec(s0.color, Color::Black),
            }),
        forall|row: int, col: int|
            0 <= row < BUFFER_HEIGHT && 0 <= col < BUFFER_WIDTH && !(row == BUFFER_HEIGHT - 1
                && col < bytes.len()) ==> cell_at(write_bytes_spec(s0, bytes).cells, row, col)
                == default_cell(),
    decreases bytes.len(),
{
    if bytes.len() == 0 {
    } else {
        let pre = bytes.drop_last();
        let c = bytes.last();
        lemma_write_line_on_cleared(s0, pre);
        lemma_write_bytes_wf(s0, pre);
        lemma_write_bytes_color(s0, pre);
        assert(pre.push(c) =~= bytes);
        lemma_write_bytes_snoc(s0, pre, c);
        let mid = write_bytes_spec(s0, pre);
        let r = write_byte_spec(mid, c);
        assert(write_bytes_spec(s0, bytes) == r);
        assert(forall|row: int, col: int|
            0 <= row < BUFFER_HEIGHT && 0 <= col < BUFFER_WIDTH && row * BUFFER_WIDTH + col != (
            BUFFER_HEIGHT - 1) * BUFFER_WIDTH + mid.col ==> cell_at(r.cells, row, col) == cell_at(
                mid.cells,
                row,
                col,
            ));
    }
}

/// Law: writing more than one but at most two rows of printable bytes,
/// none of them a newline, to a freshly cleared console leaves the first
/// row's worth on the second-to-last row and the rest at the start of the
/// last row, every other cell default.
pub proof fn lemma_write_wrapped_on_cleared(s0: ConsoleView, bytes: Seq<u8>)
    requires
        s0.wf(),
        s0.cleared(),
        BUFFER_WIDTH < bytes.len() <= 2 * BUFFER_WIDTH,
        forall|i: int| 0 <= i < bytes.len() ==> printable(bytes[i]),
    ensures
        write_bytes_spec(s0, bytes).col == bytes.len() - BUFFER_WIDTH,
        forall|i: int|
            0 <= i < BUFFER_WIDTH ==> cell_at(
                write_bytes_spec(s0, bytes).cells,
                BUFFER_HEIGHT - 2,
                i,
            ) == (ScreenChar {
                ascii_character: bytes[i],
                color_code: color_code_spec(s0.color, Color::Black),
            }),
        forall|i: int|
            BUFFER_WIDTH <= i < bytes.len() ==> cell_at(
                write_bytes_spec(s0, bytes).cells,
                BUFFER_HEIGHT - 1,
                i - BUFFER_WIDTH,
            ) == (ScreenChar {
                ascii_character: bytes[i],
                color_code: color_code_spec(s0.color, Color::Black),
            }),
        forall|row: int, col: int|
            0 <= row < BUFFER_HEIGHT - 2 && 0 <= col < BUFFER_WIDTH ==> cell_at(
                write_bytes_spec(s0, bytes).cells,
                row,
                col,
            ) == default_cell(),
        forall|col: int|
            bytes.len() - BUFFER_WIDTH <= col < BUFFER_WIDTH ==> #[trigger] cell_at(
                write_bytes_spec(s0, bytes).cells,
                BUFFER_HEIGHT - 1,
                col,
            ) == default_cell(),
    decreases bytes.len(),
{
    let pre = bytes.drop_last();
    let c = bytes.last();
    assert(pre.push(c) =~= bytes);
    lemma_write_bytes_snoc(s0, pre, c);
    lemma_write_bytes_wf(s0, pre);
    lemma_write_bytes_color(s0, pre);
    let mid = write_bytes_spec(s0, pre);
    let r = write_byte_spec(mid, c);
    assert(write_bytes_spec(s0, bytes) == r);
    if bytes.len() == BUFFER_WIDTH + 1 {
        lemma_write_line_on_cleared(s0, pre);
        // The cursor sits past the last column, so this byte first scrolls:
        // every row takes the one below it and the bottom row clears.
        assert(forall|row: int, col: int|
            0 <= row < BUFFER_HEIGHT - 1 && 0 <= col < BUFFER_WIDTH ==> #[trigger] cell_at(
                scrolled(mid.cells),
                row,
                col,
            ) == cell_at(mid.cells, row + 1, col));
        assert(forall|col: int|
            0 <= col < BUFFER_WIDTH ==> #[trigger] cell_at(
                scrolled(mid.cells),
                BUFFER_HEIGHT - 1,
                col,
            ) == default_cell());
        assert(forall|row: int, col: int|
            0 <= row < BUFFER_HEIGHT && 0 <= col < BUFFER_WIDTH && row * BUFFER_WIDTH + col != (
            BUFFER_HEIGHT - 1) * BUFFER_WIDTH ==> cell_at(r.cells, row, col) == cell_at(
                scrolled(mid.cells),
                row,
                col,
            ));
    } else {
        lemma_write_wrapped_on_cleared(s0, pre);
        // The cursor is still on the last row, so this byte lands there.
        assert(forall|row: int, col: int|
            0 <= row < BUFFER_HEIGHT && 0 <= col < BUFFER_WIDTH && row * BUFFER_WIDTH + col != (
            BUFFER_HEIGHT - 1) * BUFFER_WIDTH + mid.col ==> cell_at(r.cells, row, col)
                == cell_at(mid.cells, row, col));
    }
}

} // verus!
