use vstd::prelude::*;

verus! {

broadcast use vstd::array::group_array_axioms;

/// The PPU address space: pattern tables, name tables (mirrored at
/// `0x3000`) and palettes (mirrored every `0x20` bytes up to `0x4000`);
/// the whole space repeats every `0x4000` bytes.
pub struct VideoRam {
    pub pattern_tables: [u8; 0x2000],
    pub name_tables: [u8; 0x1000],
    pub palettes: [u8; 0x20],
}

/// The lowest address that reaches the same storage as `index`.
pub open spec fn video_canonical_address(index: u16) -> u16 {
    let i = index % 0x4000;
    if i < 0x3000 {
        i as u16
    } else if i < 0x3F00 {
        (i - 0x1000) as u16
    } else {
        (0x3F00 + (i - 0x3F00) % 0x20) as u16
    }
}

/// The colour index (0 to 3) of pixel `column` of a tile row whose low and
/// high bit planes are `low` and `high`; column 0 is the leftmost pixel,
/// taken from bit 7.
pub open spec fn tile_pixel(low: u8, high: u8, column: int) -> u8 {
    let bit = (7 - column) as u8;
    (((low >> bit) & 1) | (((high >> bit) & 1) << 1)) as u8
}

/// The eight pixels of the tile row whose planes sit at `row` and `row + 8`
/// of the pattern tables.
pub open spec fn tile_row(pattern_tables: [u8; 0x2000], row: int) -> Seq<u8> {
    Seq::new(8, |column: int| tile_pixel(pattern_tables[row], pattern_tables[row + 8], column))
}

/// The first row that `get_tile(index)` reads and the bound below which it
/// stops, as the 16-bit arithmetic computes them.
pub open spec fn tile_bounds(index: u16) -> (int, int) {
    (((index as int) * 0x10) % 0x10000, ((((index as int) + 1) % 0x10000) * 0x10) % 0x10000 / 2)
}

impl VideoRam {
    /// The byte at `index`, for an address below `0x4000`.
    pub open spec fn get_unmirrored(&self, index: u16) -> u8 {
        if index < 0x2000 {
            self.pattern_tables[index as int]
        } else if index < 0x3000 {
            self.name_tables[index - 0x2000]
        } else if index < 0x3F00 {
            self.name_tables[index - 0x3000]
        } else if index < 0x3F20 {
            self.palettes[index - 0x3F00]
        } else {
            self.palettes[(index - 0x3F20) % 0x20]
        }
    }

    /// The memory after writing `value` at `index`, for an address below
    /// `0x4000`.
    pub open spec fn set_unmirrored(&self, index: u16, value: u8) -> VideoRam {
        if index < 0x2000 {
            VideoRam {
                pattern_tables: vstd::array::spec_array_update(self.pattern_tables, index as int, value),
                ..*self
            }
        } else if index < 0x3000 {
            VideoRam {
                name_tables: vstd::array::spec_array_update(self.name_tables, index - 0x2000, value),
                ..*self
            }
        } else if index < 0x3F00 {
            VideoRam {
                name_tables: vstd::array::spec_array_update(self.name_tables, index - 0x3000, value),
                ..*self
            }
        } else if index < 0x3F20 {
            VideoRam { palettes: vstd::array::spec_array_update(self.palettes, index - 0x3F00, value), ..*self }
        } else {
            VideoRam {
                palettes: vstd::array::spec_array_update(self.palettes, (index - 0x3F20) % 0x20, value),
                ..*self
            }
        }
    }

    pub open spec fn spec_get(&self, index: u16) -> u8 {
        self.get_unmirrored((index % 0x4000) as u16)
    }

    pub open spec fn spec_set(&self, index: u16, value: u8) -> VideoRam {
        self.set_unmirrored((index % 0x4000) as u16, value)
    }

    pub open spec fn spec_new() -> VideoRam {
        VideoRam {
            pattern_tables: vstd::array::spec_array_fill_for_copy_type::<u8, 0x2000>(0),
            name_tables: vstd::array::spec_array_fill_for_copy_type::<u8, 0x1000>(0),
            palettes: vstd::array::spec_array_fill_for_copy_type::<u8, 0x20>(0),
        }
    }

    pub fn new() -> (r: VideoRam)
        ensures
            r == Self::spec_new(),
    {
        VideoRam { pattern_tables: [0; 0x2000], name_tables: [0; 0x1000], palettes: [0; 0x20] }
    }

    pub fn get(&self, index: u16) -> (r: u8)
        ensures
            r == self.spec_get(index),
        decreases index,
    {
        if index < 0x2000 {
            self.pattern_tables[index as usize]
        } else if index < 0x3000 {
            self.name_tables[index as usize - 0x2000]
        } else if index < 0x3F00 {
            self.name_tables[index as usize - 0x3000]
        } else if index < 0x3F20 {
            self.palettes[index as usize - 0x3F00]
        } else if index < 0x4000 {
            self.palettes[(index as usize - 0x3F20) % 0x20]
        } else {
            self.get(index % 0x4000)
        }
    }

    pub fn set(&mut self, index: u16, new_value: u8)
        ensures
            *final(self) == old(self).spec_set(index, new_value),
        decreases index,
    {
        if index < 0x2000 {
            self.pattern_tables[index as usize] = new_value;
            assert(self.pattern_tables =~= vstd::array::spec_array_update(
                old(self).pattern_tables,
                index as int,
                new_value,
            ));
        } else if index < 0x3000 {
            self.name_tables[index as usize - 0x2000] = new_value;
            assert(self.name_tables =~= vstd::array::spec_array_update(
                old(self).name_tables,
                index - 0x2000,
                new_value,
            ));
        } else if index < 0x3F00 {
            self.name_tables[index as usize - 0x3000] = new_value;
            assert(self.name_tables =~= vstd::array::spec_array_update(
                old(self).name_tables,
                index - 0x3000,
                new_value,
            ));
        } else if index < 0x3F20 {
            self.palettes[index as usize - 0x3F00] = new_value;
            assert(self.palettes =~= vstd::array::spec_array_update(
                old(self).palettes,
                index - 0x3F00,
                new_value,
            ));
        } else if index < 0x4000 {
            self.palettes[(index as usize - 0x3F20) % 0x20] = new_value;
            assert(self.palettes =~= vstd::array::spec_array_update(
                old(self).palettes,
                (index - 0x3F20) % 0x20,
                new_value,
            ));
        } else {
            self.set(index % 0x4000, new_value)
        }
    }

    /// The rows of tile `index` of the pattern tables, each as eight colour
    /// indices from left to right. The rows read are those from
    /// `index * 16` up to half of `(index + 1) * 16`, both computed in
    /// 16-bit arithmetic.
    pub fn get_tile(&self, index: u16) -> (r: Vec<Vec<u8>>)
        ensures
            r.len() == if tile_bounds(index).0 < tile_bounds(index).1 {
                tile_bounds(index).1 - tile_bounds(index).0
            } else {
                0
            },
            forall|k: int|
                0 <= k < r.len() ==> #[trigger] r[k]@ == tile_row(
                    self.pattern_tables,
                    tile_bounds(index).0 + k,
                ),
    {
        let from = index.wrapping_mul(0x10) as usize;
        let to = index.wrapping_add(1).wrapping_mul(0x10) as usize;
        assert(from == tile_bounds(index).0 && to / 2 == tile_bounds(index).1) by (nonlinear_arith)
            requires
                from == ((index as int) * 0x10) % 0x10000,
                to == ((((index as int) + 1) % 0x10000) * 0x10) % 0x10000,
        ;
        let mut result: Vec<Vec<u8>> = Vec::with_capacity(8);
        let end = to / 2;
        let mut i = from;
        while i < end
            invariant
                i == from || from < i <= end,
                from == tile_bounds(index).0,
                end == tile_bounds(index).1,
                end < 0x8000,
                result.len() == i - from,
                forall|k: int|
                    0 <= k < result.len() ==> #[trigger] result[k]@ == tile_row(
                        self.pattern_tables,
                        from + k,
                    ),
            decreases end - i,
        {
            let current_row = self.get_tile_row(i);
            result.push(current_row);
            i = i + 1;
        }
        result
    }

    /// Row `i` of the pattern tables decoded with its high plane at `i + 8`.
    fn get_tile_row(&self, i: usize) -> (r: Vec<u8>)
        requires
            i + 8 < 0x2000,
        ensures
            r@ == tile_row(self.pattern_tables, i as int),
    {
        let mut current_row: Vec<u8> = Vec::with_capacity(8);
        let first_byte = self.pattern_tables[i];
        let second_byte = self.pattern_tables[i + 8];
        let mut column: u8 = 0;
        while column < 8
            invariant
                column <= 8,
                first_byte == self.pattern_tables[i as int],
                second_byte == self.pattern_tables[i + 8],
                current_row@.len() == column,
                forall|k: int|
                    0 <= k < column ==> #[trigger] current_row@[k] == tile_pixel(first_byte, second_byte, k),
            decreases 8 - column,
        {
            let bit: u8 = 7 - column;
            let first_bit = (first_byte >> bit) & 1;
            let second_bit = (second_byte >> bit) & 1;
            current_row.push(first_bit | (second_bit << 1));
            column = column + 1;
        }
        assert(current_row@ =~= tile_row(self.pattern_tables, i as int));
        current_row
    }
}

/// Reading an address gives the byte of its canonical mirror: the space
/// repeats every `0x4000` bytes, the name tables reappear at `0x3000` and
/// the palettes every `0x20` bytes.
pub proof fn lemma_video_ram_mirroring(vram: VideoRam, index: u16)
    ensures
        vram.spec_get(index) == vram.spec_get(video_canonical_address(index)),
{
}

/// After a write, an address reads the written byte exactly when it shares
/// its storage with the written address; every other address keeps its byte.
pub proof fn lemma_video_ram_read_after_write(vram: VideoRam, index: u16, value: u8, probe: u16)
    ensures
        vram.spec_set(index, value).spec_get(probe) == if video_canonical_address(index)
            == video_canonical_address(probe) {
            value
        } else {
            vram.spec_get(probe)
        },
{
    let i = (index % 0x4000) as u16;
    let after = vram.set_unmirrored(i, value);
    if i < 0x2000 {
        assert(after.name_tables == vram.name_tables && after.palettes == vram.palettes);
    } else if i < 0x3F00 {
        assert(after.pattern_tables == vram.pattern_tables && after.palettes == vram.palettes);
    } else {
        assert(after.pattern_tables == vram.pattern_tables && after.name_tables == vram.name_tables);
    }
}

} // verus!
