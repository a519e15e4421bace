use vstd::prelude::*;
use vstd::string::StringSliceAdditionalSpecFns;

verus! {

/// Columns of the VGA text screen.
pub const BUFFER_WIDTH: usize = 80;

/// Rows of the VGA text screen.
pub const BUFFER_HEIGHT: usize = 25;

/// Cells of the VGA text screen, row after row.
pub const BUFFER_CELLS: usize = 2000;

/// Index of the first cell of the bottom row, where all output is written.
pub const LAST_ROW_START: usize = 1920;

/// Index of the bottom-right cell, where the timer blinks its dot.
pub const DOT_CELL: usize = 1999;

/// The space character, used to blank cells.
pub const BLANK: u8 = 0x20;

/// The dot the timer blinks in the bottom-right corner.
pub const DOT: u8 = 0x2e;

/// Line feed: moves output to a fresh bottom line.
pub const NEWLINE: u8 = 0x0a;

/// Backspace: erases the cell left of the cursor.
pub const BACKSPACE: u8 = 0x08;

/// The code page 437 block (`■`) shown for bytes that have no glyph.
pub const PLACEHOLDER: u8 = 0xfe;

/// VGA control register port, selecting which cursor register comes next.
pub const CURSOR_CONTROL_PORT: u16 = 0x3d4;

/// VGA data register port, receiving the selected cursor register's value.
pub const CURSOR_DATA_PORT: u16 = 0x3d5;

/// Cursor register holding the low byte of the cursor position.
pub const CURSOR_LOW_REGISTER: u8 = 0x0f;

/// Cursor register holding the high byte of the cursor position.
pub const CURSOR_HIGH_REGISTER: u8 = 0x0e;

/// The sixteen colors of the VGA text palette.
#[derive(Debug, Clone, Copy, PartialEq, Eq)]
pub enum Color {
    Black,
    Blue,
    Green,
    Cyan,
    Red,
    Magenta,
    Brown,
    LightGray,
    DarkGray,
    LightBlue,
    LightGreen,
    LightCyan,
    LightRed,
    Pink,
    Yellow,
    White,
}

/// The palette number of a color.
pub open spec fn color_number(c: Color) -> u8 {
    match c {
        Color::Black => 0,
        Color::Blue => 1,
        Color::Green => 2,
        Color::Cyan => 3,
        Color::Red => 4,
        Color::Magenta => 5,
        Color::Brown => 6,
        Color::LightGray => 7,
        Color::DarkGray => 8,
        Color::LightBlue => 9,
        Color::LightGreen => 10,
        Color::LightCyan => 11,
        Color::LightRed => 12,
        Color::Pink => 13,
        Color::Yellow => 14,
        Color::White => 15,
    }
}

impl Color {
    fn number(self) -> (r: u8)
        ensures
            r == color_number(self),
            r < 16,
    {
        match self {
            Color::Black => 0,
            Color::Blue => 1,
            Color::Green => 2,
            Color::Cyan => 3,
            Color::Red => 4,
            Color::Magenta => 5,
            Color::Brown => 6,
            Color::LightGray => 7,
            Color::DarkGray => 8,
            Color::LightBlue => 9,
            Color::LightGreen => 10,
            Color::LightCyan => 11,
            Color::LightRed => 12,
            Color::Pink => 13,
            Color::Yellow => 14,
            Color::White => 15,
        }
    }
}

/// A VGA attribute byte: background color in the high nibble, foreground in the low one.
#[derive(Debug, Clone, Copy, PartialEq, Eq, Structural)]
pub struct ColorCode(pub u8);

impl ColorCode {
    /// The attribute byte for `fg` on `bg`.
    pub fn new(fg: Color, bg: Color) -> (r: ColorCode)
        ensures
            r.0 == color_number(bg) * 16 + color_number(fg),
    {
        let b = bg.number();
        let f = fg.number();
        assert((b << 4u8) | f == b * 16 + f) by (bit_vector)
            requires
                b < 16,
                f < 16,
        ;
        ColorCode((b << 4u8) | f)
    }
}

/// Each color's palette number is its VGA palette index, so `ColorCode::new(fg, bg)` is
/// `16 * index(bg) + index(fg)`; red on black, for instance, is 0x04.
pub proof fn lemma_palette_indices()
    ensures
        color_number(Color::Black) == 0,
        color_number(Color::Blue) == 1,
        color_number(Color::Green) == 2,
        color_number(Color::Cyan) == 3,
        color_number(Color::Red) == 4,
        color_number(Color::Magenta) == 5,
        color_number(Color::Brown) == 6,
        color_number(Color::LightGray) == 7,
        color_number(Color::DarkGray) == 8,
        color_number(Color::LightBlue) == 9,
        color_number(Color::LightGreen) == 10,
        color_number(Color::LightCyan) == 11,
        color_number(Color::LightRed) == 12,
        color_number(Color::Pink) == 13,
        color_number(Color::Yellow) == 14,
        color_number(Color::White) == 15,
        color_number(Color::Black) * 16 + color_number(Color::Red) == 0x04,
{
}

/// Distinct color pairs give distinct attribute bytes: the attribute byte keeps both colors.
pub proof fn lemma_color_code_injective(fg1: Color, bg1: Color, fg2: Color, bg2: Color)
    ensures
        color_number(bg1) * 16 + color_number(fg1) == color_number(bg2) * 16 + color_number(fg2)
            ==> fg1 == fg2 && bg1 == bg2,
{
}

/// One cell of the VGA text screen: a code page 437 byte and its attribute.
#[derive(Debug, Clone, Copy, PartialEq, Eq, Structural)]
pub struct VgaChar {
    pub ascii_char: u8,
    pub color_code: ColorCode,
}

/// A blank cell in the given color.
pub open spec fn blank_cell(color: ColorCode) -> VgaChar {
    VgaChar { ascii_char: BLANK, color_code: color }
}

/// The screen after scrolling up one line: every row moves up, the top row is lost,
/// the bottom row is blanked, and the last column of every row but the two lowest
/// is blanked (it may hold a stale blinking dot).
pub open spec fn scroll_cells(s: Seq<VgaChar>, color: ColorCode) -> Seq<VgaChar> {
    Seq::new(
        BUFFER_CELLS as nat,
        |i: int|
            if i >= LAST_ROW_START {
                blank_cell(color)
            } else if i % 80 == 79 && i < 1840 {
                blank_cell(color)
            } else {
                s[i + 80]
            },
    )
}

/// The screen with one row blanked.
pub open spec fn clear_row_cells(s: Seq<VgaChar>, row: int, color: ColorCode) -> Seq<VgaChar> {
    Seq::new(
        s.len(),
        |i: int| if row * 80 <= i < row * 80 + 80 { blank_cell(color) } else { s[i] },
    )
}

/// Screen and cursor column after writing one byte with `write_byte`.
pub open spec fn byte_step(s: Seq<VgaChar>, col: int, color: ColorCode, b: u8) -> (Seq<VgaChar>, int) {
    if b == NEWLINE {
        (scroll_cells(s, color), 0)
    } else if col >= 80 {
        (scroll_cells(s, color).update(LAST_ROW_START as int, VgaChar { ascii_char: b, color_code: color }), 1)
    } else {
        (s.update(LAST_ROW_START + col, VgaChar { ascii_char: b, color_code: color }), col + 1)
    }
}

/// Screen and cursor column after `write_non_print`: backspace blanks the cell left of
/// the cursor and moves onto it; any other byte is shown as the placeholder block.
pub open spec fn non_print_step(s: Seq<VgaChar>, col: int, color: ColorCode, b: u8) -> (Seq<VgaChar>, int) {
    if b == BACKSPACE {
        let c = if col > 0 { col - 1 } else { 0 };
        (s.update(LAST_ROW_START + c, blank_cell(color)), c)
    } else {
        byte_step(s, col, color, PLACEHOLDER)
    }
}

/// Bytes that `write_string` prints as they are: printable ASCII and line feed.
pub open spec fn is_printable(b: u8) -> bool {
    (0x20 <= b && b <= 0x7e) || b == NEWLINE
}

/// Screen and cursor column after one byte of `write_string`.
pub open spec fn string_step(s: Seq<VgaChar>, col: int, color: ColorCode, b: u8) -> (Seq<VgaChar>, int) {
    if is_printable(b) {
        byte_step(s, col, color, b)
    } else {
        non_print_step(s, col, color, b)
    }
}

/// Screen and cursor column after `write_string` has written `bytes`, one after the other.
pub open spec fn write_bytes(s: Seq<VgaChar>, col: int, color: ColorCode, bytes: Seq<u8>) -> (Seq<VgaChar>, int)
    decreases bytes.len(),
{
    if bytes.len() == 0 {
        (s, col)
    } else {
        let p = write_bytes(s, col, color, bytes.drop_last());
        string_step(p.0, p.1, color, bytes.last())
    }
}

/// The bottom-right cell after one blink of the timer dot.
pub open spec fn toggled_dot(current: VgaChar, color: ColorCode) -> VgaChar {
    VgaChar {
        ascii_char: if current.ascii_char == BLANK { DOT } else { BLANK },
        color_code: color,
    }
}

/// Writing two strings one after the other leaves the screen exactly as writing
/// their concatenation: output can be handed to the console in any pieces.
pub proof fn lemma_write_bytes_append(s: Seq<VgaChar>, col: int, color: ColorCode, a: Seq<u8>, b: Seq<u8>)
    ensures
        write_bytes(s, col, color, a + b) == write_bytes(
            write_bytes(s, col, color, a).0,
            write_bytes(s, col, color, a).1,
            color,
            b,
        ),
    decreases b.len(),
{
    if b.len() == 0 {
        assert(a + b =~= a);
    } else {
        assert((a + b).drop_last() =~= a + b.drop_last());
        assert((a + b).last() == b.last());
        lemma_write_bytes_append(s, col, color, a, b.drop_last());
    }
}

/// Every byte keeps the console in shape: a full screen and a column within the bottom row.
pub proof fn lemma_write_bytes_shape(s: Seq<VgaChar>, col: int, color: ColorCode, bytes: Seq<u8>)
    requires
        s.len() == BUFFER_CELLS,
        0 <= col <= BUFFER_WIDTH,
    ensures
        write_bytes(s, col, color, bytes).0.len() == BUFFER_CELLS,
        0 <= write_bytes(s, col, color, bytes).1 <= BUFFER_WIDTH,
    decreases bytes.len(),
{
    if bytes.len() > 0 {
        lemma_write_bytes_shape(s, col, color, bytes.drop_last());
    }
}

/// Printable ASCII (0x20 to 0x7e) written from the start of the bottom row lands there
/// byte for byte: cell `1920 + i` holds byte `i` in the console's color, the cursor ends
/// after the last byte, and every other cell keeps its old contents.
pub proof fn lemma_ascii_text_on_bottom_row(s: Seq<VgaChar>, color: ColorCode, bytes: Seq<u8>)
    requires
        s.len() == BUFFER_CELLS,
        bytes.len() <= 80,
        forall|i: int| 0 <= i < bytes.len() ==> 0x20 <= #[trigger] bytes[i] <= 0x7e,
    ensures
        write_bytes(s, 0, color, bytes).1 == bytes.len(),
        write_bytes(s, 0, color, bytes).0.len() == BUFFER_CELLS,
        forall|i: int|
            0 <= i < bytes.len() ==> #[trigger] write_bytes(s, 0, color, bytes).0[1920 + i]
                == (VgaChar { ascii_char: bytes[i], color_code: color }),
        forall|j: int|
            0 <= j < 2000 && !(1920 <= j < 1920 + bytes.len()) ==> #[trigger] write_bytes(s, 0, color, bytes).0[j] == s[j],
    decreases bytes.len(),
{
    if bytes.len() > 0 {
        let prefix = bytes.drop_last();
        assert forall|i: int| 0 <= i < prefix.len() implies 0x20 <= #[trigger] prefix[i] <= 0x7e by {
            assert(prefix[i] == bytes[i]);
        }
        lemma_ascii_text_on_bottom_row(s, color, prefix);
        let last = bytes[bytes.len() - 1];
        assert(0x20 <= last <= 0x7e);
        let p = write_bytes(s, 0, color, prefix);
        let all = write_bytes(s, 0, color, bytes);
        assert(all == (p.0.update(1920 + prefix.len() as int, VgaChar { ascii_char: last, color_code: color }), prefix.len() + 1int));
        assert forall|i: int| 0 <= i < bytes.len() implies #[trigger] all.0[1920 + i]
            == (VgaChar { ascii_char: bytes[i], color_code: color }) by {
            if i < prefix.len() {
                assert(p.0[1920 + i] == VgaChar { ascii_char: prefix[i], color_code: color });
            }
        }
        assert forall|j: int| 0 <= j < 2000 && !(1920 <= j < 1920 + bytes.len()) implies #[trigger] all.0[j] == s[j] by {
            assert(p.0[j] == s[j]);
        }
    }
}

/// A scroll moves every row up by one: for each of the 24 upper rows, every cell holds
/// what the cell one row below held, except that the last column of rows 0 to 22 is
/// blanked; the bottom row is all blanks in the console's color.
pub proof fn lemma_scroll_moves_rows_up(s: Seq<VgaChar>, color: ColorCode)
    requires
        s.len() == BUFFER_CELLS,
    ensures
        scroll_cells(s, color).len() == BUFFER_CELLS,
        forall|row: int, col: int|
            0 <= row < 24 && 0 <= col < 80 ==> #[trigger] scroll_cells(s, color)[row * 80 + col] == if col == 79
                && row < 23 {
                VgaChar { ascii_char: 0x20, color_code: color }
            } else {
                s[(row + 1) * 80 + col]
            },
        forall|col: int|
            0 <= col < 80 ==> #[trigger] scroll_cells(s, color)[1920 + col] == (VgaChar { ascii_char: 0x20, color_code: color }),
{
    assert forall|row: int, col: int| 0 <= row < 24 && 0 <= col < 80 implies #[trigger] scroll_cells(s, color)[row * 80 + col]
        == if col == 79 && row < 23 {
            VgaChar { ascii_char: 0x20, color_code: color }
        } else {
            s[(row + 1) * 80 + col]
        } by {
        let i = row * 80 + col;
        assert(i % 80 == col && 0 <= i < 1920 && (i < 1840 <==> row < 23)) by (nonlinear_arith)
            requires
                i == row * 80 + col,
                0 <= row < 24,
                0 <= col < 80,
        ;
        assert((row + 1) * 80 + col == i + 80) by (nonlinear_arith)
            requires
                i == row * 80 + col,
        ;
    }
}

/// Printable bytes other than line feed, at most one row of them.
pub open spec fn is_plain_line(line: Seq<u8>) -> bool {
    &&& line.len() <= BUFFER_WIDTH
    &&& forall|i: int| 0 <= i < line.len() ==> is_printable(#[trigger] line[i]) && line[i] != NEWLINE
}

proof fn lemma_plain_line_on_bottom_row(s: Seq<VgaChar>, color: ColorCode, line: Seq<u8>)
    requires
        s.len() == BUFFER_CELLS,
        is_plain_line(line),
    ensures
        write_bytes(s, 0, color, line).0.len() == BUFFER_CELLS,
        write_bytes(s, 0, color, line).1 == line.len(),
        forall|i: int|
            0 <= i < line.len() ==> #[trigger] write_bytes(s, 0, color, line).0[LAST_ROW_START + i]
                == (VgaChar { ascii_char: line[i], color_code: color }),
    decreases line.len(),
{
    if line.len() > 0 {
        let prefix = line.drop_last();
        assert forall|i: int| 0 <= i < prefix.len() implies is_printable(#[trigger] prefix[i])
            && prefix[i] != NEWLINE by {
            assert(prefix[i] == line[i]);
        }
        lemma_plain_line_on_bottom_row(s, color, prefix);
        assert(is_printable(line[line.len() - 1]));
        let p = write_bytes(s, 0, color, prefix);
        assert forall|i: int| 0 <= i < line.len() implies #[trigger] write_bytes(s, 0, color, line).0[LAST_ROW_START + i]
            == VgaChar { ascii_char: line[i], color_code: color } by {
            if i < prefix.len() {
                assert(p.0[LAST_ROW_START + i] == VgaChar { ascii_char: prefix[i], color_code: color });
            }
        }
    }
}

/// What `writeln!(writer, "\n{}", line)` leaves on screen: a line of up to 80
/// printable characters, written after a line feed and followed by one, ends up at
/// the start of the second-to-last row, and the cursor is back at the start of the
/// bottom row.
pub proof fn lemma_line_shows_above_prompt(s: Seq<VgaChar>, col: int, color: ColorCode, line: Seq<u8>)
    requires
        s.len() == BUFFER_CELLS,
        0 <= col <= BUFFER_WIDTH,
        is_plain_line(line),
    ensures
        write_bytes(s, col, color, seq![NEWLINE] + line + seq![NEWLINE]).1 == 0,
        forall|i: int|
            0 <= i < line.len() ==> #[trigger] write_bytes(s, col, color, seq![NEWLINE] + line + seq![NEWLINE]).0[1840 + i]
                == (VgaChar { ascii_char: line[i], color_code: color }),
{
    let nl: Seq<u8> = seq![NEWLINE];
    let all = nl + line + nl;
    assert(all.drop_last() =~= nl + line);
    assert(all.last() == NEWLINE);
    lemma_write_bytes_append(s, col, color, nl, line);
    assert(nl.drop_last() =~= Seq::<u8>::empty());
    assert(nl.last() == NEWLINE);
    assert(write_bytes(s, col, color, nl.drop_last()) == (s, col));
    let first = write_bytes(s, col, color, nl);
    assert(first == (scroll_cells(s, color), 0int));
    lemma_plain_line_on_bottom_row(scroll_cells(s, color), color, line);
    let mid = write_bytes(s, col, color, nl + line);
    assert forall|i: int| 0 <= i < line.len() implies #[trigger] write_bytes(s, col, color, all).0[1840 + i]
        == VgaChar { ascii_char: line[i], color_code: color } by {
        assert(mid.0[LAST_ROW_START + i] == VgaChar { ascii_char: line[i], color_code: color });
        assert(write_bytes(s, col, color, all).0 == scroll_cells(mid.0, color));
        assert((1840 + i) % 80 == i);
    }
}

/// A backspace right after `write_byte` of any byte but a line feed, on a row that was
/// not full, takes the cursor back to where it was and leaves a blank in the character's cell.
pub proof fn lemma_backspace_erases_last_char(s: Seq<VgaChar>, col: int, color: ColorCode, b: u8)
    requires
        s.len() == BUFFER_CELLS,
        0 <= col < BUFFER_WIDTH,
        b != NEWLINE,
    ensures
        non_print_step(byte_step(s, col, color, b).0, byte_step(s, col, color, b).1, color, BACKSPACE)
            == (s.update(LAST_ROW_START + col, blank_cell(color)), col),
{
    let after = byte_step(s, col, color, b);
    assert(after.0.update(LAST_ROW_START + col, blank_cell(color)) =~= s.update(LAST_ROW_START + col, blank_cell(color)));
}

/// Two blinks of the timer dot restore the whole screen, when the corner cell held a
/// blank or a dot in the console's color.
pub proof fn lemma_toggle_dot_twice_restores_screen(s: Seq<VgaChar>, color: ColorCode)
    requires
        s.len() == BUFFER_CELLS,
        s[DOT_CELL as int].ascii_char == BLANK || s[DOT_CELL as int].ascii_char == DOT,
        s[DOT_CELL as int].color_code == color,
    ensures
        ({
            let once = s.update(DOT_CELL as int, toggled_dot(s[DOT_CELL as int], color));
            once.update(DOT_CELL as int, toggled_dot(once[DOT_CELL as int], color))
        }) == s,
{
    let once = s.update(DOT_CELL as int, toggled_dot(s[DOT_CELL as int], color));
    assert(once.update(DOT_CELL as int, toggled_dot(once[DOT_CELL as int], color)) =~= s);
}

/// Two blinks of the timer dot restore the corner cell, when it held a blank or a dot
/// in the console's color.
pub proof fn lemma_toggle_dot_twice(current: VgaChar, color: ColorCode)
    requires
        current.ascii_char == BLANK || current.ascii_char == DOT,
        current.color_code == color,
    ensures
        toggled_dot(toggled_dot(current, color), color) == current,
{
}

/// The text console: the 25 x 80 cells of the VGA screen, the column where the
/// next byte goes on the bottom row, and the color new text is written in.
pub struct Writer {
    col_pos: usize,
    color_code: ColorCode,
    buff: Vec<VgaChar>,
}

impl Writer {
    #[verifier::type_invariant]
    spec fn inv(self) -> bool {
        &&& self.buff.len() == BUFFER_CELLS
        &&& self.col_pos <= BUFFER_WIDTH
    }

    /// The screen cells, row after row.
    pub closed spec fn cells(self) -> Seq<VgaChar> {
        self.buff@
    }

    /// The column of the bottom row where the next byte goes (80 when the row is full).
    pub closed spec fn col(self) -> int {
        self.col_pos as int
    }

    /// The color new text is written in.
    pub closed spec fn color(self) -> ColorCode {
        self.color_code
    }

    /// A console over the given screen contents, writing in `color_code` from the
    /// start of the bottom row.
    pub fn new(color_code: ColorCode, cells: Vec<VgaChar>) -> (w: Writer)
        requires
            cells.len() == BUFFER_CELLS,
        ensures
            w.cells() == cells@,
            w.col() == 0,
            w.color() == color_code,
    {
        Writer { col_pos: 0, color_code, buff: cells }
    }

    /// Blanks every cell of `row` in the writer's color.
    pub fn clear_row(&mut self, row: usize)
        requires
            row < BUFFER_HEIGHT,
        ensures
            final(self).cells() == clear_row_cells(old(self).cells(), row as int, old(self).color()),
            final(self).col() == old(self).col(),
            final(self).color() == old(self).color(),
            old(self).cells().len() == BUFFER_CELLS,
            0 <= old(self).col() <= BUFFER_WIDTH,
            final(self).cells().len() == BUFFER_CELLS,
            0 <= final(self).col() <= BUFFER_WIDTH,
    {
        proof { use_type_invariant(&*self); }
        let blank = VgaChar { ascii_char: BLANK, color_code: self.color_code };
        let start = row * BUFFER_WIDTH;
        let ghost before = self.buff@;
        let ghost col0 = self.col_pos;
        let ghost color0 = self.color_code;
        let mut col: usize = 0;
        while col < BUFFER_WIDTH
            invariant
                self.col_pos == col0,
                self.color_code == color0,
                col0 <= BUFFER_WIDTH,
                col <= BUFFER_WIDTH,
                start == row * 80,
                row < BUFFER_HEIGHT,
                blank == blank_cell(self.color_code),
                self.buff.len() == BUFFER_CELLS,
                before.len() == BUFFER_CELLS,
                forall|i: int|
                    0 <= i < BUFFER_CELLS ==> #[trigger] self.buff@[i] == if start <= i < start + col {
                        blank
                    } else {
                        before[i]
                    },
            decreases BUFFER_WIDTH - col,
        {
            self.buff[start + col] = blank;
            col = col + 1;
        }
        assert(self.buff@ =~= clear_row_cells(before, row as int, self.color_code));
        proof { use_type_invariant(&*self); }
    }

    /// Moves every row up by one, dropping the top row; the bottom row keeps its old contents.
    fn shift_rows_up(&mut self)
        ensures
            final(self).buff.len() == BUFFER_CELLS,
            final(self).col_pos == old(self).col_pos,
            final(self).color_code == old(self).color_code,
            forall|i: int|
                0 <= i < BUFFER_CELLS ==> #[trigger] final(self).buff@[i] == if i < LAST_ROW_START {
                    old(self).buff@[i + 80]
                } else {
                    old(self).buff@[i]
                },
    {
        proof { use_type_invariant(&*self); }
        let ghost before = self.buff@;
        let ghost col0 = self.col_pos;
        let ghost color0 = self.color_code;
        let mut i: usize = 0;
        while i < LAST_ROW_START
            invariant
                self.col_pos == col0,
                self.color_code == color0,
                col0 <= BUFFER_WIDTH,
                i <= LAST_ROW_START,
                self.buff.len() == BUFFER_CELLS,
                before.len() == BUFFER_CELLS,
                forall|j: int|
                    0 <= j < BUFFER_CELLS ==> #[trigger] self.buff@[j] == if j < i {
                        before[j + 80]
                    } else {
                        before[j]
                    },
            decreases LAST_ROW_START - i,
        {
            let below = self.buff[i + BUFFER_WIDTH];
            self.buff[i] = below;
            i = i + 1;
        }
    }

    /// Blanks the last column of every row above the two lowest ones.
    fn clear_dots(&mut self)
        ensures
            final(self).buff.len() == BUFFER_CELLS,
            final(self).col_pos == old(self).col_pos,
            final(self).color_code == old(self).color_code,
            forall|i: int|
                0 <= i < BUFFER_CELLS ==> #[trigger] final(self).buff@[i] == if i % 80 == 79 && i < 1840 {
                    blank_cell(old(self).color_code)
                } else {
                    old(self).buff@[i]
                },
    {
        proof { use_type_invariant(&*self); }
        let blank = VgaChar { ascii_char: BLANK, color_code: self.color_code };
        let ghost before = self.buff@;
        let ghost col0 = self.col_pos;
        let ghost color0 = self.color_code;
        let mut row: usize = 0;
        while row < BUFFER_HEIGHT - 2
            invariant
                self.col_pos == col0,
                self.color_code == color0,
                col0 <= BUFFER_WIDTH,
                row <= BUFFER_HEIGHT - 2,
                blank == blank_cell(self.color_code),
                self.buff.len() == BUFFER_CELLS,
                before.len() == BUFFER_CELLS,
                forall|j: int|
                    0 <= j < BUFFER_CELLS ==> #[trigger] self.buff@[j] == if j % 80 == 79 && j < row * 80 {
                        blank
                    } else {
                        before[j]
                    },
            decreases BUFFER_HEIGHT - 2 - row,
        {
            self.buff[row * BUFFER_WIDTH + BUFFER_WIDTH - 1] = blank;
            row = row + 1;
        }
    }

    /// Scrolls the screen up one line and moves output to the start of the fresh bottom row.
    pub fn new_line(&mut self)
        ensures
            final(self).cells() == scroll_cells(old(self).cells(), old(self).color()),
            final(self).col() == 0,
            final(self).color() == old(self).color(),
            old(self).cells().len() == BUFFER_CELLS,
            0 <= old(self).col() <= BUFFER_WIDTH,
            final(self).cells().len() == BUFFER_CELLS,
            0 <= final(self).col() <= BUFFER_WIDTH,
            forall|row: int, col: int|
                0 <= row < 24 && 0 <= col < 80 ==> #[trigger] final(self).cells()[row * 80 + col] == if col == 79
                    && row < 23 {
                    VgaChar { ascii_char: 0x20, color_code: old(self).color() }
                } else {
                    old(self).cells()[(row + 1) * 80 + col]
                },
            forall|col: int|
                0 <= col < 80 ==> #[trigger] final(self).cells()[1920 + col] == (VgaChar { ascii_char: 0x20, color_code: old(self).color() }),
    {
        proof {
            use_type_invariant(&*self);
            lemma_scroll_moves_rows_up(self.buff@, self.color_code);
        }
        let ghost before = self.buff@;
        self.shift_rows_up();
        self.clear_row(BUFFER_HEIGHT - 1);
        self.clear_dots();
        self.col_pos = 0;
        assert(self.buff@ =~= scroll_cells(before, self.color_code));
        proof { use_type_invariant(&*self); }
    }

    /// Writes one byte at the cursor of the bottom row. A line feed scrolls the screen;
    /// any other byte is stored as it is, after scrolling first when the row is full.
    pub fn write_byte(&mut self, byte: u8)
        ensures
            (final(self).cells(), final(self).col()) == byte_step(old(self).cells(), old(self).col(), old(self).color(), byte),
            final(self).color() == old(self).color(),
            old(self).cells().len() == BUFFER_CELLS,
            0 <= old(self).col() <= BUFFER_WIDTH,
            final(self).cells().len() == BUFFER_CELLS,
            0 <= final(self).col() <= BUFFER_WIDTH,
    {
        proof { use_type_invariant(&*self); }
        if byte == NEWLINE {
            self.new_line();
        } else {
            if self.col_pos >= BUFFER_WIDTH {
                self.new_line();
            }
            proof { use_type_invariant(&*self); }
            let ch = VgaChar { ascii_char: byte, color_code: self.color_code };
            let idx = LAST_ROW_START + self.col_pos;
            self.buff[idx] = ch;
            self.col_pos = self.col_pos + 1;
        }
        proof { use_type_invariant(&*self); }
    }

    /// Handles a byte that has no glyph of its own: backspace erases the cell left of
    /// the cursor and moves the cursor onto it; anything else is shown as a block.
    pub fn write_non_print(&mut self, byte: u8)
        ensures
            (final(self).cells(), final(self).col()) == non_print_step(old(self).cells(), old(self).col(), old(self).color(), byte),
            final(self).color() == old(self).color(),
            old(self).cells().len() == BUFFER_CELLS,
            0 <= old(self).col() <= BUFFER_WIDTH,
            final(self).cells().len() == BUFFER_CELLS,
            0 <= final(self).col() <= BUFFER_WIDTH,
    {
        proof { use_type_invariant(&*self); }
        if byte == BACKSPACE {
            if self.col_pos > 0 {
                self.col_pos = self.col_pos - 1;
            }
            let blank = VgaChar { ascii_char: BLANK, color_code: self.color_code };
            let idx = LAST_ROW_START + self.col_pos;
            self.buff[idx] = blank;
        } else {
            self.write_byte(PLACEHOLDER);
        }
        proof { use_type_invariant(&*self); }
    }

    /// Writes every byte of `string`: printable ASCII and line feeds as they are,
    /// the other bytes through `write_non_print`.
    pub fn write_string(&mut self, string: &str)
        ensures
            (final(self).cells(), final(self).col()) == write_bytes(old(self).cells(), old(self).col(), old(self).color(), string.spec_bytes()),
            final(self).color() == old(self).color(),
            old(self).cells().len() == BUFFER_CELLS,
            0 <= old(self).col() <= BUFFER_WIDTH,
            final(self).cells().len() == BUFFER_CELLS,
            0 <= final(self).col() <= BUFFER_WIDTH,
            old(self).col() == 0 && string.spec_bytes().len() <= 80
                && (forall|i: int| 0 <= i < string.spec_bytes().len() ==> 0x20 <= #[trigger] string.spec_bytes()[i] <= 0x7e)
                ==> final(self).col() == string.spec_bytes().len()
                && (forall|i: int| 0 <= i < string.spec_bytes().len() ==> #[trigger] final(self).cells()[1920 + i]
                    == (VgaChar { ascii_char: string.spec_bytes()[i], color_code: old(self).color() })),
    {
        proof { use_type_invariant(&*self); }
        proof {
            if self.col_pos == 0 && string.spec_bytes().len() <= 80
                && (forall|i: int| 0 <= i < string.spec_bytes().len() ==> 0x20 <= #[trigger] string.spec_bytes()[i] <= 0x7e) {
                lemma_ascii_text_on_bottom_row(self.buff@, self.color_code, string.spec_bytes());
            }
        }
        let bytes = string.as_bytes();
        let ghost cells0 = self.cells();
        let ghost col0 = self.col();
        let ghost color0 = self.color();
        let mut i: usize = 0;
        while i < bytes.len()
            invariant
                i <= bytes@.len(),
                bytes@ == string.spec_bytes(),
                self.color() == color0,
                (self.cells(), self.col()) == write_bytes(cells0, col0, color0, bytes@.take(i as int)),
            decreases bytes@.len() - i,
        {
            let byte = bytes[i];
            assert(bytes@.take(i as int + 1).drop_last() =~= bytes@.take(i as int));
            if (0x20 <= byte && byte <= 0x7e) || byte == NEWLINE {
                self.write_byte(byte);
            } else {
                self.write_non_print(byte);
            }
            i = i + 1;
        }
        assert(bytes@.take(i as int) =~= bytes@);
        proof { use_type_invariant(&*self); }
    }

    /// Blinks the dot in the bottom-right cell: a blank becomes a dot, anything else a blank.
    pub fn toggle_dot(&mut self)
        ensures
            final(self).cells() == old(self).cells().update(
                DOT_CELL as int,
                toggled_dot(old(self).cells()[DOT_CELL as int], old(self).color()),
            ),
            final(self).col() == old(self).col(),
            final(self).color() == old(self).color(),
            old(self).cells().len() == BUFFER_CELLS,
            0 <= old(self).col() <= BUFFER_WIDTH,
            final(self).cells().len() == BUFFER_CELLS,
            0 <= final(self).col() <= BUFFER_WIDTH,
    {
        proof { use_type_invariant(&*self); }
        let current = self.buff[DOT_CELL];
        let next = VgaChar {
            ascii_char: if current.ascii_char == BLANK { DOT } else { BLANK },
            color_code: self.color_code,
        };
        self.buff[DOT_CELL] = next;
        proof { use_type_invariant(&*self); }
    }

    /// The hardware cursor position: the cell where the next byte goes.
    pub fn cursor_position(&self) -> (r: u16)
        ensures
            r == LAST_ROW_START + self.col(),
    {
        proof { use_type_invariant(self); }
        (LAST_ROW_START + self.col_pos) as u16
    }

    /// The port writes that move the hardware cursor to `cursor_position`: select the
    /// low-byte register and send the low byte, then the high-byte register and the high byte.
    pub fn cursor_port_writes(&self) -> (r: [(u16, u8); 4])
        ensures
            r@ == seq![
                (CURSOR_CONTROL_PORT, CURSOR_LOW_REGISTER),
                (CURSOR_DATA_PORT, ((LAST_ROW_START + self.col()) % 256) as u8),
                (CURSOR_CONTROL_PORT, CURSOR_HIGH_REGISTER),
                (CURSOR_DATA_PORT, ((LAST_ROW_START + self.col()) / 256) as u8),
            ],
    {
        let pos = self.cursor_position();
        let low = (pos & 0xff) as u8;
        let high = ((pos >> 8u16) & 0xff) as u8;
        assert(pos & 0xff == pos % 256 && (pos >> 8u16) & 0xff == pos / 256) by (bit_vector);
        let writes = [
            (CURSOR_CONTROL_PORT, CURSOR_LOW_REGISTER),
            (CURSOR_DATA_PORT, low),
            (CURSOR_CONTROL_PORT, CURSOR_HIGH_REGISTER),
            (CURSOR_DATA_PORT, high),
        ];
        assert(writes@ =~= seq![
            (CURSOR_CONTROL_PORT, CURSOR_LOW_REGISTER),
            (CURSOR_DATA_PORT, low),
            (CURSOR_CONTROL_PORT, CURSOR_HIGH_REGISTER),
            (CURSOR_DATA_PORT, high),
        ]);
        writes
    }

    /// Every writer holds a full screen and a column within the bottom row.
    pub fn shape(&self)
        ensures
            self.cells().len() == BUFFER_CELLS,
            0 <= self.col() <= BUFFER_WIDTH,
    {
        proof { use_type_invariant(self); }
    }

    /// The column of the bottom row where the next byte goes.
    pub fn col_pos(&self) -> (r: usize)
        ensures
            r == self.col(),
            r <= BUFFER_WIDTH,
    {
        proof { use_type_invariant(self); }
        self.col_pos
    }

    /// The color new text is written in.
    pub fn color_code(&self) -> (r: ColorCode)
        ensures
            r == self.color(),
    {
        self.color_code
    }

    /// The cell at `row`, `col`.
    pub fn char_at(&self, row: usize, col: usize) -> (r: VgaChar)
        requires
            row < BUFFER_HEIGHT,
            col < BUFFER_WIDTH,
        ensures
            r == self.cells()[row * 80 + col],
    {
        proof { use_type_invariant(self); }
        self.buff[row * BUFFER_WIDTH + col]
    }
}

} // verus!
