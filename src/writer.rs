//! The VGA text-mode console: a 25 x 80 grid of characters, written at the
//! bottom row and scrolled up a line at a time.
//!
//! The grid here is the console's own copy; the caller mirrors it into the
//! memory-mapped text buffer.
use crate::colors::{color_number, Color, ColorCode};
use vstd::prelude::*;
use vstd::string::StringSliceAdditionalSpecFns;

verus! {

/// The number of rows of the text buffer.
pub const BUFFER_HEIGHT: usize = 25;

/// The number of columns of the text buffer.
pub const BUFFER_WIDTH: usize = 80;

/// The number of cells of the text buffer.
pub const BUFFER_CELLS: usize = 2000;

/// The first column from which `delete_char` erases: the columns before it
/// hold the prompt.
pub const MIN_DELETE_COLUMN: usize = 22;

/// The ASCII space.
pub const SPACE: u8 = 0x20;

/// The ASCII line feed.
pub const LINE_FEED: u8 = 0x0A;

/// The ASCII horizontal tab.
pub const TAB: u8 = 0x09;

/// One cell of the text buffer: an ASCII byte and its colours.
#[derive(Debug, Clone, Copy, PartialEq, Eq, Structural)]
pub struct ScreenChar {
    pub ascii_character: u8,
    pub color_code: ColorCode,
}

/// The cells of the text buffer, row after row.
pub struct Buffer {
    chars: Vec<ScreenChar>,
}

impl View for Buffer {
    type V = Seq<ScreenChar>;

    closed spec fn view(&self) -> Seq<ScreenChar> {
        self.chars@
    }
}

/// The index of the cell at `row`, `col`.
pub open spec fn cell(row: int, col: int) -> int {
    row * BUFFER_WIDTH + col
}

/// An empty cell in `color`.
pub open spec fn blank(color: ColorCode) -> ScreenChar {
    ScreenChar { ascii_character: 32, color_code: color }
}

/// `grid` moved up a row, the top row dropped and the bottom one blank.
pub open spec fn scrolled(grid: Seq<ScreenChar>, color: ColorCode) -> Seq<ScreenChar> {
    Seq::new(
        BUFFER_CELLS as nat,
        |i: int| if i < cell(BUFFER_HEIGHT - 1, 0) { grid[i + BUFFER_WIDTH] } else { blank(color) },
    )
}

/// `grid` with every cell of `row` blank.
pub open spec fn row_cleared(grid: Seq<ScreenChar>, row: int, color: ColorCode) -> Seq<ScreenChar> {
    Seq::new(
        grid.len(),
        |i: int| if cell(row, 0) <= i < cell(row + 1, 0) { blank(color) } else { grid[i] },
    )
}

/// `grid` with `bytes` written in `color` along `row` from `col` on, the
/// bytes that fall outside the grid dropped.
pub open spec fn text_at(
    grid: Seq<ScreenChar>,
    row: int,
    col: int,
    bytes: Seq<u8>,
    color: ColorCode,
) -> Seq<ScreenChar> {
    Seq::new(
        grid.len(),
        |i: int|
            if row < BUFFER_HEIGHT && i / (BUFFER_WIDTH as int) == row && col <= i % (
            BUFFER_WIDTH as int) < col + bytes.len() {
                ScreenChar { ascii_character: bytes[i % (BUFFER_WIDTH as int) - col], color_code: color }
            } else {
                grid[i]
            },
    )
}

/// The state of a console: its cursor column, colours and cells.
pub ghost struct WriterView {
    pub column: nat,
    pub color: ColorCode,
    pub grid: Seq<ScreenChar>,
}

/// The console after a line feed: scrolled, cursor at the start of the line.
pub open spec fn after_new_line(w: WriterView) -> WriterView {
    WriterView { column: 0, grid: scrolled(w.grid, w.color), ..w }
}

/// The console after writing `byte`: a line feed starts a new line, a tab
/// moves the cursor four columns, any other byte goes at the cursor on the
/// bottom row, after a new line if the cursor is past the last column.
pub open spec fn after_byte(w: WriterView, byte: u8) -> WriterView {
    if byte == 10 {
        after_new_line(w)
    } else if byte == 9 {
        WriterView { column: w.column + 4, ..w }
    } else {
        let v = if w.column >= BUFFER_WIDTH { after_new_line(w) } else { w };
        WriterView {
            column: v.column + 1,
            grid: v.grid.update(
                cell(BUFFER_HEIGHT - 1, v.column as int),
                ScreenChar { ascii_character: byte, color_code: v.color },
            ),
            ..v
        }
    }
}

/// What `write_string` shows for `b`: printable ASCII, line feeds and tabs
/// as they are, anything else as the block character 0xfe.
pub open spec fn shown_byte(b: u8) -> u8 {
    if (0x20 <= b && b <= 0x7e) || b == 10 || b == 9 {
        b
    } else {
        0xfe
    }
}

/// The console after writing each of `bytes` as `write_string` shows it.
pub open spec fn after_bytes(w: WriterView, bytes: Seq<u8>) -> WriterView
    decreases bytes.len(),
{
    if bytes.len() == 0 {
        w
    } else {
        after_byte(after_bytes(w, bytes.drop_last()), shown_byte(bytes.last()))
    }
}

impl Buffer {
    /// A buffer of blank cells in `color`.
    pub fn blank(color: ColorCode) -> (b: Buffer)
        ensures
            b@ == Seq::new(BUFFER_CELLS as nat, |i: int| blank(color)),
    {
        let mut chars: Vec<ScreenChar> = Vec::new();
        let mut i: usize = 0;
        while i < BUFFER_CELLS
            invariant
                i <= BUFFER_CELLS,
                chars@ == Seq::new(i as nat, |j: int| blank(color)),
            decreases BUFFER_CELLS - i,
        {
            chars.push(ScreenChar { ascii_character: SPACE, color_code: color });
            i += 1;
            assert(chars@ =~= Seq::new(i as nat, |j: int| blank(color)));
        }
        Buffer { chars }
    }

    /// The cell at `row`, `col`.
    pub fn char_at(&self, row: usize, col: usize) -> (r: ScreenChar)
        requires
            self@.len() == BUFFER_CELLS,
            row < BUFFER_HEIGHT,
            col < BUFFER_WIDTH,
        ensures
            r == self@[cell(row as int, col as int)],
    {
        self.chars[row * BUFFER_WIDTH + col]
    }
}

/// The console: a cursor on the bottom row, the current colours and the
/// cells.
pub struct Writer {
    column_position: usize,
    color_code: ColorCode,
    buffer: Buffer,
}

impl View for Writer {
    type V = WriterView;

    closed spec fn view(&self) -> WriterView {
        WriterView {
            column: self.column_position as nat,
            color: self.color_code,
            grid: self.buffer@,
        }
    }
}

impl Writer {
    /// The grid has one cell per row and column.
    pub open spec fn wf(&self) -> bool {
        self@.grid.len() == BUFFER_CELLS
    }

    /// A console over `buffer` with the cursor at `column_position`.
    pub fn new(column_position: usize, color_code: ColorCode, buffer: Buffer) -> (w: Self)
        requires
            buffer@.len() == BUFFER_CELLS,
        ensures
            w.wf(),
            w@ == (WriterView { column: column_position as nat, color: color_code, grid: buffer@ }),
    {
        Self { column_position, color_code, buffer }
    }

    /// The cells of the console.
    pub fn buffer(&self) -> (r: &Buffer)
        ensures
            r@ == self@.grid,
    {
        &self.buffer
    }

    /// The column of the cursor.
    pub fn column_position(&self) -> (r: usize)
        ensures
            r == self@.column,
    {
        self.column_position
    }

    /// Replaces the foreground colour of what is written next.
    pub fn set_color_code(&mut self, new_code: Color)
        ensures
            final(self)@ == (WriterView { color: final(self)@.color, ..old(self)@ }),
            final(self)@.color@ == color_number(new_code) | (old(self)@.color@ & 0xF0u8),
    {
        self.color_code.set_foreground(new_code)
    }

    /// Moves the cursor to column `new_position`.
    pub fn set_column_position(&mut self, new_position: usize)
        ensures
            final(self)@ == (WriterView { column: new_position as nat, ..old(self)@ }),
    {
        self.column_position = new_position;
    }

    /// Scrolls the console up a line and puts the cursor at its start.
    pub fn new_line(&mut self)
        requires
            old(self).wf(),
        ensures
            final(self)@ == after_new_line(old(self)@),
    {
        let last_row_start = (BUFFER_HEIGHT - 1) * BUFFER_WIDTH;
        let mut i: usize = 0;
        while i < last_row_start
            invariant
                last_row_start == cell(BUFFER_HEIGHT - 1, 0),
                i <= last_row_start,
                self@.grid.len() == BUFFER_CELLS,
                self@.color == old(self)@.color,
                forall|j: int| 0 <= j < i ==> self@.grid[j] == old(self)@.grid[j + BUFFER_WIDTH],
                forall|j: int| i <= j < BUFFER_CELLS ==> self@.grid[j] == old(self)@.grid[j],
            decreases last_row_start - i,
        {
            let character = self.buffer.chars[i + BUFFER_WIDTH];
            self.buffer.chars[i] = character;
            i += 1;
        }
        self.clear_row(BUFFER_HEIGHT - 1);
        self.column_position = 0;
        assert(self@.grid =~= scrolled(old(self)@.grid, old(self)@.color));
    }

    fn indentation(&mut self)
        requires
            old(self)@.column + 4 <= usize::MAX,
        ensures
            final(self)@ == (WriterView { column: old(self)@.column + 4, ..old(self)@ }),
    {
        self.column_position += 4;
    }

    fn clear_row(&mut self, row: usize)
        requires
            old(self).wf(),
            row < BUFFER_HEIGHT,
        ensures
            final(self)@ == (WriterView {
                grid: row_cleared(old(self)@.grid, row as int, old(self)@.color),
                ..old(self)@
            }),
    {
        let space = ScreenChar { ascii_character: SPACE, color_code: self.color_code };
        let start = row * BUFFER_WIDTH;
        let mut col: usize = 0;
        while col < BUFFER_WIDTH
            invariant
                start == cell(row as int, 0),
                row < BUFFER_HEIGHT,
                col <= BUFFER_WIDTH,
                space == blank(old(self)@.color),
                self@.column == old(self)@.column,
                self@.color == old(self)@.color,
                self@.grid.len() == BUFFER_CELLS,
                forall|j: int|
                    0 <= j < BUFFER_CELLS ==> self@.grid[j] == if start <= j < start + col {
                        space
                    } else {
                        old(self)@.grid[j]
                    },
            decreases BUFFER_WIDTH - col,
        {
            self.buffer.chars[start + col] = space;
            col += 1;
        }
        assert(self@.grid =~= row_cleared(old(self)@.grid, row as int, old(self)@.color));
    }

    /// Writes one byte at the cursor; see `after_byte`.
    pub fn write_byte(&mut self, byte: u8)
        requires
            old(self).wf(),
            old(self)@.column + 4 <= usize::MAX,
        ensures
            final(self).wf(),
            final(self)@ == after_byte(old(self)@, byte),
    {
        match byte {
            LINE_FEED => self.new_line(),
            TAB => self.indentation(),
            byte => {
                if self.column_position >= BUFFER_WIDTH {
                    self.new_line();
                }
                let row = BUFFER_HEIGHT - 1;
                let col = self.column_position;
                self.buffer.chars[row * BUFFER_WIDTH + col] = ScreenChar {
                    ascii_character: byte,
                    color_code: self.color_code,
                };
                self.column_position += 1;
            },
        }
    }

    /// Writes `byte` in `color_code` at `row`, `col`, without moving the
    /// cursor; a place outside the grid is ignored.
    pub fn write_byte_at(&mut self, row: usize, col: usize, byte: u8, color_code: ColorCode)
        requires
            old(self).wf(),
        ensures
            final(self)@ == (WriterView {
                grid: text_at(old(self)@.grid, row as int, col as int, seq![byte], color_code),
                ..old(self)@
            }),
    {
        if row < BUFFER_HEIGHT && col < BUFFER_WIDTH {
            self.buffer.chars[row * BUFFER_WIDTH + col] = ScreenChar {
                ascii_character: byte,
                color_code,
            };
        }
        assert(self@.grid =~= text_at(old(self)@.grid, row as int, col as int, seq![byte], color_code));
    }

    /// Writes the bytes of `s` in `color_code` along `row` from `col` on,
    /// without moving the cursor; bytes past the grid are dropped.
    pub fn write_string_at(&mut self, row: usize, col: usize, s: &str, color_code: ColorCode)
        requires
            old(self).wf(),
            col + s.spec_bytes().len() <= usize::MAX,
        ensures
            final(self)@ == (WriterView {
                grid: text_at(old(self)@.grid, row as int, col as int, s.spec_bytes(), color_code),
                ..old(self)@
            }),
    {
        let bytes = s.as_bytes();
        let mut i: usize = 0;
        assert(text_at(old(self)@.grid, row as int, col as int, bytes@.take(0), color_code) =~= old(self)@.grid);
        while i < bytes.len()
            invariant
                bytes@ == s.spec_bytes(),
                col + bytes@.len() <= usize::MAX,
                i <= bytes@.len(),
                self.wf(),
                self@ == (WriterView {
                    grid: text_at(old(self)@.grid, row as int, col as int, bytes@.take(i as int), color_code),
                    ..old(self)@
                }),
            decreases bytes@.len() - i,
        {
            self.write_byte_at(row, col + i, bytes[i], color_code);
            i += 1;
            assert(self@.grid =~= text_at(old(self)@.grid, row as int, col as int, bytes@.take(i as int), color_code));
        }
        assert(bytes@.take(i as int) =~= bytes@);
    }

    /// Writes `s` at the cursor, byte by byte, as `shown_byte` shows each.
    pub fn write_string(&mut self, s: &str)
        requires
            old(self).wf(),
            old(self)@.column + 4 * s.spec_bytes().len() + 4 <= usize::MAX,
        ensures
            final(self).wf(),
            final(self)@ == after_bytes(old(self)@, s.spec_bytes()),
    {
        let bytes = s.as_bytes();
        let mut i: usize = 0;
        while i < bytes.len()
            invariant
                bytes@ == s.spec_bytes(),
                old(self)@.column + 4 * bytes@.len() + 4 <= usize::MAX,
                i <= bytes@.len(),
                self.wf(),
                self@.column <= old(self)@.column + 4 * i,
                self@ == after_bytes(old(self)@, bytes@.take(i as int)),
            decreases bytes@.len() - i,
        {
            let byte = bytes[i];
            if (0x20 <= byte && byte <= 0x7e) || byte == LINE_FEED || byte == TAB {
                self.write_byte(byte);
            } else {
                self.write_byte(0xfe);
            }
            i += 1;
            assert(bytes@.take(i as int).drop_last() =~= bytes@.take(i - 1));
        }
        assert(bytes@.take(i as int) =~= bytes@);
    }

    /// Erases the character before the cursor and moves the cursor onto it,
    /// unless the cursor is within the prompt. The cursor may not be past the
    /// end of the line.
    pub fn delete_char(&mut self)
        requires
            old(self).wf(),
            old(self)@.column <= BUFFER_WIDTH,
        ensures
            old(self)@.column >= MIN_DELETE_COLUMN ==> final(self)@ == (WriterView {
                column: (old(self)@.column - 1) as nat,
                grid: old(self)@.grid.update(
                    cell(BUFFER_HEIGHT - 1, old(self)@.column - 1),
                    blank(old(self)@.color),
                ),
                ..old(self)@
            }),
            old(self)@.column < MIN_DELETE_COLUMN ==> final(self)@ == old(self)@,
    {
        if self.column_position >= MIN_DELETE_COLUMN {
            self.column_position -= 1;
            let row = BUFFER_HEIGHT - 1;
            let col = self.column_position;
            self.buffer.chars[row * BUFFER_WIDTH + col] = ScreenChar {
                ascii_character: SPACE,
                color_code: self.color_code,
            };
        }
    }

    /// Blanks every row and puts the cursor at column 0.
    pub fn clear_screen(&mut self)
        requires
            old(self).wf(),
        ensures
            final(self)@ == (WriterView {
                column: 0,
                grid: Seq::new(BUFFER_CELLS as nat, |i: int| blank(old(self)@.color)),
                ..old(self)@
            }),
    {
        let mut row: usize = 0;
        while row < BUFFER_HEIGHT
            invariant
                row <= BUFFER_HEIGHT,
                self.wf(),
                self@.color == old(self)@.color,
                self@.column == old(self)@.column,
                forall|j: int|
                    0 <= j < BUFFER_CELLS ==> self@.grid[j] == if j < cell(row as int, 0) {
                        blank(old(self)@.color)
                    } else {
                        old(self)@.grid[j]
                    },
            decreases BUFFER_HEIGHT - row,
        {
            self.clear_row(row);
            row += 1;
        }
        self.column_position = 0;
        assert(self@.grid =~= Seq::new(BUFFER_CELLS as nat, |i: int| blank(old(self)@.color)));
    }
}

} // verus!
