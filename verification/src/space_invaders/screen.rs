use vstd::prelude::*;

verus! {

/// The first column that is drawn at the second, end-of-frame interrupt.
pub const COLUMN_LIMIT_BETWEEN_INTERRUPTIONS: u16 = 96;
pub const SCREEN_WIDTH: usize = 224;
pub const SCREEN_HEIGHT: usize = 256;
/// Size of the video memory: one bit per pixel, 32 bytes per column.
pub const FRAME_BUFFER_SIZE: usize = 0x1C00;

/// Whether bit `index` of `byte` is set.
pub open spec fn bit_of(byte: u8, index: u8) -> bool {
    (byte >> index) & 1 == 1
}

proof fn lemma_mask_bit(byte: u8, index: u8)
    by (bit_vector)
    requires
        index < 8,
    ensures
        ((byte & (1u8 << index)) > 0) == ((byte >> index) & 1 == 1),
        ((1u8 << index) < 0x80) == (index < 7),
        index < 7 ==> ((1u8 << index) << 1u8) == (1u8 << ((index + 1) as u8)),
{
}

/// The eight bits of `byte`, least significant first.
pub fn get_bits(byte: u8) -> (r: [bool; 8])
    ensures
        forall|i: int| 0 <= i < 8 ==> #[trigger] r[i] == bit_of(byte, i as u8),
{
    let mut bits = [false; 8];
    let mut mask: u8 = 0x01;
    let mut i: usize = 0;
    proof {
        assert((1u8 << 0u8) == 1) by (bit_vector);
    }
    while mask < 0x80
        invariant
            i < 8,
            mask == (1u8 << (i as u8)),
            forall|k: int| 0 <= k < i ==> #[trigger] bits[k] == bit_of(byte, k as u8),
        decreases 8 - i,
    {
        proof {
            lemma_mask_bit(byte, i as u8);
        }
        bits[i] = (byte & mask) > 0;
        mask = mask << 1;
        i = i + 1;
    }
    proof {
        lemma_mask_bit(byte, i as u8);
    }
    bits[i] = (byte & mask) > 0;
    bits
}

/// The pixel at `line`, `column` that the frame buffer describes: each
/// column is 32 bytes drawn bottom-up, least significant bit first.
pub open spec fn frame_pixel(frame_buffer: Seq<u8>, line: int, column: int) -> bool {
    let k = SCREEN_HEIGHT - 1 - line;
    bit_of(frame_buffer[column * 0x20 + k / 8], (k % 8) as u8)
}

/// The Space Invaders screen, 256 lines of 224 pixels, rebuilt from the
/// video memory at each of the two interrupts of a frame.
pub struct GameScreen {
    lines: Vec<Vec<bool>>,
}

impl GameScreen {
    /// The pixels, line by line.
    pub closed spec fn pixels(&self) -> Seq<Seq<bool>> {
        self.lines@.map_values(|row: Vec<bool>| row@)
    }

    /// The screen has its full size.
    pub open spec fn wf(&self) -> bool {
        &&& self.pixels().len() == SCREEN_HEIGHT
        &&& forall|line: int| 0 <= line < SCREEN_HEIGHT ==> (#[trigger] self.pixels()[line]).len() == SCREEN_WIDTH
    }

    /// A blank screen.
    pub fn new() -> (r: GameScreen)
        ensures
            r.wf(),
            forall|line: int, column: int|
                0 <= line < SCREEN_HEIGHT && 0 <= column < SCREEN_WIDTH ==> !#[trigger] r.pixels()[line][column],
    {
        let mut lines: Vec<Vec<bool>> = Vec::new();
        let mut l: usize = 0;
        while l < SCREEN_HEIGHT
            invariant
                l <= SCREEN_HEIGHT,
                lines@.len() == l,
                forall|k: int| 0 <= k < l ==> (#[trigger] lines@[k])@ == Seq::new(SCREEN_WIDTH as nat, |_i: int| false),
            decreases SCREEN_HEIGHT - l,
        {
            let mut line: Vec<bool> = Vec::new();
            let mut c: usize = 0;
            while c < SCREEN_WIDTH
                invariant
                    c <= SCREEN_WIDTH,
                    line@ == Seq::new(c as nat, |_i: int| false),
                decreases SCREEN_WIDTH - c,
            {
                line.push(false);
                c = c + 1;
                assert(line@ =~= Seq::new(c as nat, |_i: int| false));
            }
            lines.push(line);
            l = l + 1;
        }
        GameScreen { lines }
    }

    /// Redraws the columns `start_column..end_column` from the frame buffer.
    fn update_columns(&mut self, start_column: u16, end_column: u16, frame_buffer: &[u8])
        requires
            old(self).wf(),
            start_column <= end_column <= SCREEN_WIDTH,
            frame_buffer@.len() >= end_column * 0x20,
        ensures
            final(self).wf(),
            forall|line: int, column: int|
                0 <= line < SCREEN_HEIGHT && 0 <= column < SCREEN_WIDTH ==> #[trigger] final(self).pixels()[line][column]
                    == if start_column <= column < end_column {
                    frame_pixel(frame_buffer@, line, column)
                } else {
                    old(self).pixels()[line][column]
                },
    {
        let ghost before = self.pixels();
        let mut column = start_column;
        while column < end_column
            invariant
                self.wf(),
                start_column <= column <= end_column <= SCREEN_WIDTH,
                frame_buffer@.len() >= end_column * 0x20,
                forall|line: int, c: int|
                    0 <= line < SCREEN_HEIGHT && 0 <= c < SCREEN_WIDTH ==> #[trigger] self.pixels()[line][c] == if start_column
                        <= c < column {
                        frame_pixel(frame_buffer@, line, c)
                    } else {
                        before[line][c]
                    },
            decreases end_column - column,
        {
            let mut line_group: u16 = 0;
            while line_group < 0x20
                invariant
                    self.wf(),
                    start_column <= column < end_column <= SCREEN_WIDTH,
                    frame_buffer@.len() >= end_column * 0x20,
                    line_group <= 0x20,
                    forall|line: int, c: int|
                        0 <= line < SCREEN_HEIGHT && 0 <= c < SCREEN_WIDTH ==> #[trigger] self.pixels()[line][c] == if (
                        start_column <= c < column) || (c == column && SCREEN_HEIGHT - 1 - line < line_group * 8) {
                            frame_pixel(frame_buffer@, line, c)
                        } else {
                            before[line][c]
                        },
                decreases 0x20 - line_group,
            {
                let address = column * 0x20 + line_group;
                let bits = get_bits(frame_buffer[address as usize]);
                let mut line_index: u16 = 0;
                while line_index < 8
                    invariant
                        self.wf(),
                        start_column <= column < end_column <= SCREEN_WIDTH,
                        frame_buffer@.len() >= end_column * 0x20,
                        line_group < 0x20,
                        line_index <= 8,
                        address == column * 0x20 + line_group,
                        forall|i: int| 0 <= i < 8 ==> #[trigger] bits[i] == bit_of(frame_buffer@[address as int], i as u8),
                        forall|line: int, c: int|
                            0 <= line < SCREEN_HEIGHT && 0 <= c < SCREEN_WIDTH ==> #[trigger] self.pixels()[line][c] == if (
                            start_column <= c < column) || (c == column && SCREEN_HEIGHT - 1 - line < line_group * 8
                                + line_index) {
                                frame_pixel(frame_buffer@, line, c)
                            } else {
                                before[line][c]
                            },
                    decreases 8 - line_index,
                {
                    let line = SCREEN_HEIGHT - 1 - (line_group * 8 + line_index) as usize;
                    let ghost old_pixels = self.pixels();
                    let ghost old_lines = self.lines@;
                    let mut row: Vec<bool> = Vec::new();
                    std::mem::swap(&mut row, &mut self.lines[line]);
                    assert(row@ == old_lines[line as int]@);
                    assert(old_pixels[line as int] == old_lines[line as int]@);
                    assert(self.lines@.len() == old_lines.len());
                    assert(forall|l: int| 0 <= l < old_lines.len() && l != line ==> #[trigger] self.lines@[l] == old_lines[l]);
                    row.set(column as usize, bits[line_index as usize]);
                    self.lines.set(line, row);
                    proof {
                        assert forall|l: int, c: int|
                            0 <= l < SCREEN_HEIGHT && 0 <= c < SCREEN_WIDTH implies #[trigger] self.pixels()[l][c]
                            == if l == line && c == column {
                            bits[line_index as int]
                        } else {
                            old_pixels[l][c]
                        } by {
                            assert(self.pixels()[l] == self.lines@[l]@);
                            assert(old_pixels[l] == old_lines[l]@);
                        }
                        assert(self.pixels().len() == SCREEN_HEIGHT);
                        assert forall|l: int| 0 <= l < SCREEN_HEIGHT implies (#[trigger] self.pixels()[l]).len()
                            == SCREEN_WIDTH by {
                            assert(self.pixels()[l] == self.lines@[l]@);
                            assert(old_pixels[l] == old_lines[l]@);
                        }
                    }
                    line_index = line_index + 1;
                }
                line_group = line_group + 1;
            }
            column = column + 1;
        }
    }

    /// The interrupt at the middle of the frame: redraws the columns from
    /// 96 to the end.
    pub fn on_mid_screen(&mut self, frame_buffer: &[u8])
        requires
            old(self).wf(),
            frame_buffer@.len() >= FRAME_BUFFER_SIZE,
        ensures
            final(self).wf(),
            forall|line: int, column: int|
                0 <= line < SCREEN_HEIGHT && 0 <= column < SCREEN_WIDTH ==> #[trigger] final(self).pixels()[line][column]
                    == if COLUMN_LIMIT_BETWEEN_INTERRUPTIONS <= column {
                    frame_pixel(frame_buffer@, line, column)
                } else {
                    old(self).pixels()[line][column]
                },
    {
        self.update_columns(COLUMN_LIMIT_BETWEEN_INTERRUPTIONS, SCREEN_WIDTH as u16, frame_buffer);
    }

    /// The interrupt at the end of the frame: redraws the columns below 96.
    pub fn on_full_screen(&mut self, frame_buffer: &[u8])
        requires
            old(self).wf(),
            frame_buffer@.len() >= FRAME_BUFFER_SIZE,
        ensures
            final(self).wf(),
            forall|line: int, column: int|
                0 <= line < SCREEN_HEIGHT && 0 <= column < SCREEN_WIDTH ==> #[trigger] final(self).pixels()[line][column]
                    == if column < COLUMN_LIMIT_BETWEEN_INTERRUPTIONS {
                    frame_pixel(frame_buffer@, line, column)
                } else {
                    old(self).pixels()[line][column]
                },
    {
        self.update_columns(0, COLUMN_LIMIT_BETWEEN_INTERRUPTIONS, frame_buffer);
    }

    /// The pixels, line by line.
    pub fn get_pixels(&self) -> (r: &Vec<Vec<bool>>)
        ensures
            r@.map_values(|row: Vec<bool>| row@) == self.pixels(),
    {
        &self.lines
    }
}

/// The two interrupts of a frame together redraw the whole screen from the
/// frame buffer.
pub proof fn lemma_frame_redraws_everything(
    start: Seq<Seq<bool>>,
    middle: Seq<Seq<bool>>,
    end: Seq<Seq<bool>>,
    frame_buffer: Seq<u8>,
)
    requires
        forall|line: int, column: int|
            0 <= line < SCREEN_HEIGHT && 0 <= column < SCREEN_WIDTH ==> #[trigger] middle[line][column] == if column
                < COLUMN_LIMIT_BETWEEN_INTERRUPTIONS {
                frame_pixel(frame_buffer, line, column)
            } else {
                start[line][column]
            },
        forall|line: int, column: int|
            0 <= line < SCREEN_HEIGHT && 0 <= column < SCREEN_WIDTH ==> #[trigger] end[line][column] == if COLUMN_LIMIT_BETWEEN_INTERRUPTIONS
                <= column {
                frame_pixel(frame_buffer, line, column)
            } else {
                middle[line][column]
            },
    ensures
        forall|line: int, column: int|
            0 <= line < SCREEN_HEIGHT && 0 <= column < SCREEN_WIDTH ==> #[trigger] end[line][column] == frame_pixel(
                frame_buffer,
                line,
                column,
            ),
{
    assert forall|line: int, column: int|
        0 <= line < SCREEN_HEIGHT && 0 <= column < SCREEN_WIDTH implies #[trigger] end[line][column] == frame_pixel(
        frame_buffer,
        line,
        column,
    ) by {
        if column < COLUMN_LIMIT_BETWEEN_INTERRUPTIONS {
            assert(middle[line][column] == frame_pixel(frame_buffer, line, column));
        }
    }
}

} // verus!
