//! The display controller: the timing state machine and the pixel pipeline
//! that rebuilds the background and viewport buffers from tile memory.
use vstd::prelude::*;
use crate::cpu::wrap16;
use crate::mmu::{MMU, MemView};

verus! {

/// Width and height of the background canvas, in pixels.
pub const WIDTH: usize = 256;
pub const HEIGHT: usize = 256;
/// Width and height of the visible window, in pixels.
pub const SCREEN_WIDTH: usize = 160;
pub const SCREEN_HEIGHT: usize = 144;

/// Display colors, packed as alpha, red, green, blue.
pub const DARKEST_GREEN: u32 = 0xFF0F380F;
pub const DARK_GREEN: u32 = 0xFF306230;
pub const LIGHT_GREEN: u32 = 0xFF8BAC0F;
pub const LIGHTEST_GREEN: u32 = 0xFF9BBC0F;

/// Memory-mapped display registers.
pub const LCDC_ADDR: u16 = 0xFF40;
pub const STAT_ADDR: u16 = 0xFF41;
pub const SCY_ADDR: u16 = 0xFF42;
pub const SCX_ADDR: u16 = 0xFF43;
pub const LY_ADDR: u16 = 0xFF44;
pub const LYC_ADDR: u16 = 0xFF45;
pub const BGP_ADDR: u16 = 0xFF47;
/// First byte of the tile set and of the tile map.
pub const TILE_SET_ADDR: u16 = 0x8000;
pub const TILE_MAP_ADDR: u16 = 0x9800;

/// The shade that the palette `bgp` gives to the 2-bit color index `pair`:
/// slot `n` is held in bits `2n` and `2n + 1`.
pub open spec fn shade_of(bgp: u8, pair: u8) -> u8 {
    if pair == 1 {
        (bgp & 0b0000_1100) >> 2u8
    } else if pair == 2 {
        (bgp & 0b0011_0000) >> 4u8
    } else if pair == 3 {
        (bgp & 0b1100_0000) >> 6u8
    } else {
        bgp & 0b0000_0011
    }
}

/// The display color of a shade.
pub open spec fn color_of(shade: u8) -> u32 {
    if shade == 1 {
        LIGHT_GREEN
    } else if shade == 2 {
        DARK_GREEN
    } else if shade == 3 {
        DARKEST_GREEN
    } else {
        LIGHTEST_GREEN
    }
}

/// The 2-bit color index of column `col` in a tile row: the first byte of
/// the row gives the high bit, the second the low bit, column 0 is bit 7.
pub open spec fn pixel_pair(first: u8, second: u8, col: int) -> u8 {
    (((first >> ((7 - col) as u8)) & 1) * 2 + ((second >> ((7 - col) as u8)) & 1)) as u8
}

/// Color of pixel `k` (row-major, 8 per row) of a 16-byte tile.
pub open spec fn tile_pixel(tile: Seq<u8>, bgp: u8, k: int) -> u32 {
    color_of(shade_of(bgp, pixel_pair(tile[2 * (k / 8)], tile[2 * (k / 8) + 1], k % 8)))
}

/// The 16 bytes of the tile that starts at `addr`.
pub open spec fn tile_at(m: MemView, addr: u16) -> Seq<u8> {
    Seq::new(16, |i: int| m.read(wrap16(addr + i)))
}

/// The tile with index `idx` in the tile set.
pub open spec fn tile_of(m: MemView, idx: u8) -> Seq<u8> {
    tile_at(m, (0x8000 + 16 * idx) as u16)
}

/// Map cell of a background pixel, and the pixel's place inside its tile.
pub open spec fn cell_of(p: int) -> int {
    ((p / 256) / 8) * 32 + (p % 256) / 8
}

pub open spec fn in_tile_of(p: int) -> int {
    ((p / 256) % 8) * 8 + (p % 256) % 8
}

/// Background pixel of map cell `t` and in-tile pixel `i`.
pub open spec fn pos_of(t: int, i: int) -> int {
    (i % 8 + (t % 32) * 8) + (i / 8 + (t / 32) * 8) * 256
}

/// Color of background pixel `p` given the store.
pub open spec fn bg_pixel(m: MemView, p: int) -> u32 {
    tile_pixel(tile_of(m, m.read((0x9800 + cell_of(p)) as u16)), m.read(0xFF47), in_tile_of(p))
}

/// The background canvas built from tile set, tile map and palette.
pub open spec fn background_of(m: MemView) -> Seq<u32> {
    Seq::new(65536, |p: int| bg_pixel(m, p))
}

/// `v` is the visible window cut out of `bg` at the given scroll offsets,
/// wrapping around the canvas edges.
pub open spec fn is_crop(v: Seq<u32>, bg: Seq<u32>, scx: u8, scy: u8) -> bool {
    &&& v.len() == 23040
    &&& forall|row: int, col: int|
        0 <= row < 144 && 0 <= col < 160 ==> #[trigger] v[row * 160 + col] == bg[((scy + row)
            % 256) * 256 + (scx + col) % 256]
}

proof fn lemma_pos(t: u32, i: u32)
    requires
        t < 1024,
        i < 64,
    ensures
        0 <= pos_of(t as int, i as int) < 65536,
        cell_of(pos_of(t as int, i as int)) == t,
        in_tile_of(pos_of(t as int, i as int)) == i,
{
    let p: u32 = ((i % 8 + (t % 32) * 8) + (i / 8 + (t / 32) * 8) * 256) as u32;
    assert(p < 65536 && ((p / 256) / 8) * 32 + (p % 256) / 8 == t && ((p / 256) % 8) * 8 + (p
        % 256) % 8 == i) by (bit_vector)
        requires
            t < 1024,
            i < 64,
            p == ((i % 8 + (t % 32) * 8) + (i / 8 + (t / 32) * 8) * 256),
    ;
}

proof fn lemma_cell(p: u32)
    requires
        p < 65536,
    ensures
        0 <= cell_of(p as int) < 1024,
        0 <= in_tile_of(p as int) < 64,
        pos_of(cell_of(p as int), in_tile_of(p as int)) == p,
{
    let t: u32 = (((p / 256) / 8) * 32 + (p % 256) / 8) as u32;
    let i: u32 = (((p / 256) % 8) * 8 + (p % 256) % 8) as u32;
    assert(t < 1024 && i < 64 && (i % 8 + (t % 32) * 8) + (i / 8 + (t / 32) * 8) * 256 == p)
        by (bit_vector)
        requires
            p < 65536,
            t == ((p / 256) / 8) * 32 + (p % 256) / 8,
            i == ((p / 256) % 8) * 8 + (p % 256) % 8,
    ;
}

/// Scanline stage of a timing step: the mode clock after adding `delta`
/// (reset when a visible scanline is completed, which happens once the
/// clock reaches 456), the scanline counter, and
/// whether the counter was incremented.
pub open spec fn scan_clock(mode: u8, clock: int, ly: u8, delta: int) -> (int, u8, bool) {
    let mc = clock + delta;
    if mc >= 456 && mode != 1 {
        let next = ((ly + 1) % 256) as u8;
        (if next <= 144 { 0 } else { mc }, next, true)
    } else {
        (mc, ly, false)
    }
}

/// The mode that a mode-clock value falls in: OAM search up to 80,
/// pixel transfer up to 252, H-blank up to 456, V-blank up to 4560, and
/// OAM search again past that.
pub open spec fn mode_for(mc: int) -> u8 {
    if mc <= 80 {
        2
    } else if mc <= 252 {
        3
    } else if mc <= 456 {
        0
    } else if mc <= 4560 {
        1
    } else {
        2
    }
}

/// The status register with its low three bits replaced: the mode in bits
/// 0-1 and the coincidence of scanline and compare register in bit 2.
pub open spec fn stat_of(stat: u8, ly: u8, lyc: u8, mode: u8) -> u8 {
    (stat & 0b1111_1000) | (if ly == lyc { 0b100 | mode } else { mode })
}

/// The timing machine and the store after one step with the display on,
/// before the pixel pipeline runs.
pub open spec fn timing_spec(p: PpuView, m: MemView, delta: int) -> (PpuView, MemView) {
    let (mc, ly, incremented) = scan_clock(p.mode, p.mode_clock as int, m.read(0xFF44), delta);
    let with_ly = if incremented {
        m.write(0xFF44, ly)
    } else {
        m
    };
    let mode = mode_for(mc);
    let with_wrap = if mc > 4560 && ly > 154 {
        with_ly.write(0xFF44, 0)
    } else {
        with_ly
    };
    let with_stat = with_wrap.write(0xFF41, stat_of(
        with_wrap.read(0xFF41),
        with_wrap.read(0xFF44),
        with_wrap.read(0xFF45),
        mode,
    ));
    (PpuView { mode: mode, mode_clock: if mc > 4560 { 0 } else { mc as usize }, ..p }, with_stat)
}

/// One step of the display controller by `delta` cycles takes `(before, mem_before)` to
/// `(after, mem_after)`: with the display off nothing changes; with it on, the timing
/// machine advances and, on entering OAM search, the buffers that the dirty
/// flags call for are rebuilt and those flags cleared.
pub open spec fn stepped(before: PpuView, mem_before: MemView, delta: int, after: PpuView, mem_after: MemView) -> bool {
    if mem_before.read(0xFF40) & 0x80 == 0 {
        after == before && mem_after == mem_before
    } else {
        let (p, m) = timing_spec(before, mem_before, delta);
        &&& after.mode == p.mode
        &&& after.mode_clock == p.mode_clock
        &&& p.mode != 2 ==> after == p && mem_after == m
        &&& p.mode == 2 ==> mem_after == (MemView { dirty_vram: false, dirty_viewport: false, ..m })
        &&& p.mode == 2 && m.dirty_vram ==> after.background == background_of(m) && is_crop(
            after.viewport,
            background_of(m),
            m.read(0xFF43),
            m.read(0xFF42),
        )
        &&& p.mode == 2 && !m.dirty_vram && m.dirty_viewport ==> after.background == before.background
            && is_crop(after.viewport, before.background, m.read(0xFF43), m.read(0xFF42))
        &&& p.mode == 2 && !m.dirty_vram && !m.dirty_viewport ==> after == p
    }
}

/// A step with the display on that brings the mode clock to 456 or beyond outside
/// V-blank moves the scanline counter from N to N + 1 for a visible N, and
/// resets the mode clock to 0, entering OAM search.
pub proof fn lemma_scanline_advance(before: PpuView, mem_before: MemView, delta: int, after: PpuView, mem_after: MemView)
    requires
        mem_before.wf(),
        mem_before.read(0xFF40) & 0x80 != 0,
        before.mode != 1,
        before.mode_clock + delta >= 456,
        mem_before.read(0xFF44) < 144,
        stepped(before, mem_before, delta, after, mem_after),
    ensures
        mem_after.read(0xFF44) == mem_before.read(0xFF44) + 1,
        after.mode_clock == 0,
        after.mode == 2,
{
}

/// A step with the display on that keeps the mode clock below 456
/// leaves the scanline counter as it was and adds the cycles to the clock.
pub proof fn lemma_scanline_hold(before: PpuView, mem_before: MemView, delta: int, after: PpuView, mem_after: MemView)
    requires
        mem_before.wf(),
        mem_before.read(0xFF40) & 0x80 != 0,
        delta >= 0,
        before.mode_clock + delta < 456,
        stepped(before, mem_before, delta, after, mem_after),
    ensures
        mem_after.read(0xFF44) == mem_before.read(0xFF44),
        after.mode_clock == before.mode_clock + delta,
{
}

/// After a step with the display on, the status register holds the mode in
/// bits 0-1 and, in bit 2, whether the published scanline counter equals the
/// compare register; its upper bits are kept.
pub proof fn lemma_status_register(before: PpuView, mem_before: MemView, delta: int, after: PpuView, mem_after: MemView)
    requires
        mem_before.wf(),
        mem_before.read(0xFF40) & 0x80 != 0,
        stepped(before, mem_before, delta, after, mem_after),
    ensures
        mem_after.read(0xFF41) & 0b11 == after.mode,
        (mem_after.read(0xFF41) & 0b100 != 0) == (mem_after.read(0xFF44) == mem_after.read(0xFF45)),
        mem_after.read(0xFF41) & 0xF8 == mem_before.read(0xFF41) & 0xF8,
{
    let (p, m) = timing_spec(before, mem_before, delta);
    let stat = mem_before.read(0xFF41);
    let mode = p.mode;
    let ly = m.read(0xFF44);
    let lyc = m.read(0xFF45);
    let r = m.read(0xFF41);
    assert(mode <= 3);
    assert(r == stat_of(stat, ly, lyc, mode));
    assert(r & 0b11 == mode && (r & 0b100 != 0) == (ly == lyc) && r & 0xF8 == stat & 0xF8)
        by (bit_vector)
        requires
            mode <= 3,
            r == (stat & 0b1111_1000) | (if ly == lyc { 0b100 | mode } else { mode }),
    ;
}

proof fn lemma_row_col(row: int, col: int)
    requires
        0 <= col < 8,
        0 <= row,
    ensures
        (row * 8 + col) / 8 == row,
        (row * 8 + col) % 8 == col,
{
    assert((row * 8 + col) / 8 == row && (row * 8 + col) % 8 == col) by (nonlinear_arith)
        requires
            0 <= col < 8,
            0 <= row,
    ;
}

/// The mathematical model of the display controller.
pub ghost struct PpuView {
    /// 2: OAM search, 3: pixel transfer, 0: H-blank, 1: V-blank.
    pub mode: u8,
    pub mode_clock: usize,
    pub background: Seq<u32>,
    pub viewport: Seq<u32>,
}

pub struct PPU {
    mode: u8,
    mode_clock: usize,
    background_buffer: Vec<u32>,
    viewport: Vec<u32>,
}

impl View for PPU {
    type V = PpuView;

    closed spec fn view(&self) -> PpuView {
        PpuView {
            mode: self.mode,
            mode_clock: self.mode_clock,
            background: self.background_buffer@,
            viewport: self.viewport@,
        }
    }
}

impl PPU {
    /// The background canvas has its full size and the mode clock stays
    /// within one frame's V-blank threshold.
    pub open spec fn wf(&self) -> bool {
        &&& self@.background.len() == 65536
        &&& self@.mode_clock <= 4560
    }

    /// Powers on in mode 0 with both buffers filled with the lightest color.
    pub fn new() -> (r: PPU)
        ensures
            r.wf(),
            r@.mode == 0,
            r@.mode_clock == 0,
            r@.background == Seq::new(65536, |i: int| LIGHTEST_GREEN),
            r@.viewport == Seq::new(23040, |i: int| LIGHTEST_GREEN),
    {
        let mut background_buffer: Vec<u32> = Vec::new();
        let mut i: usize = 0;
        while i < WIDTH * HEIGHT
            invariant
                i <= 65536,
                background_buffer@ == Seq::new(i as nat, |k: int| LIGHTEST_GREEN),
            decreases 65536 - i,
        {
            background_buffer.push(LIGHTEST_GREEN);
            i = i + 1;
        }
        let mut viewport: Vec<u32> = Vec::new();
        let mut j: usize = 0;
        while j < SCREEN_WIDTH * SCREEN_HEIGHT
            invariant
                j <= 23040,
                viewport@ == Seq::new(j as nat, |k: int| LIGHTEST_GREEN),
            decreases 23040 - j,
        {
            viewport.push(LIGHTEST_GREEN);
            j = j + 1;
        }
        PPU { mode: 0, mode_clock: 0, background_buffer, viewport }
    }

    /// Display control register.
    pub fn get_lcdc(&self, mmu: &MMU) -> (r: u8)
        requires
            mmu.wf(),
        ensures
            r == mmu@.read(0xFF40),
    {
        mmu.read_byte(LCDC_ADDR)
    }

    /// Background palette register: four 2-bit shade slots.
    pub fn get_bgp(&self, mmu: &MMU) -> (r: u8)
        requires
            mmu.wf(),
        ensures
            r == mmu@.read(0xFF47),
    {
        mmu.read_byte(BGP_ADDR)
    }

    /// Vertical scroll register.
    pub fn get_scy(&self, mmu: &MMU) -> (r: u8)
        requires
            mmu.wf(),
        ensures
            r == mmu@.read(0xFF42),
    {
        mmu.read_byte(SCY_ADDR)
    }

    /// Horizontal scroll register.
    pub fn get_scx(&self, mmu: &MMU) -> (r: u8)
        requires
            mmu.wf(),
        ensures
            r == mmu@.read(0xFF43),
    {
        mmu.read_byte(SCX_ADDR)
    }

    /// Scanline counter.
    pub fn get_ly(&self, mmu: &MMU) -> (r: u8)
        requires
            mmu.wf(),
        ensures
            r == mmu@.read(0xFF44),
    {
        mmu.read_byte(LY_ADDR)
    }

    /// Scanline compare register.
    pub fn get_lyc(&self, mmu: &MMU) -> (r: u8)
        requires
            mmu.wf(),
        ensures
            r == mmu@.read(0xFF45),
    {
        mmu.read_byte(LYC_ADDR)
    }

    pub fn get_viewport(&self) -> (r: &Vec<u32>)
        ensures
            r@ == self@.viewport,
    {
        &self.viewport
    }

    pub fn get_background_buffer(&self) -> (r: &Vec<u32>)
        ensures
            r@ == self@.background,
    {
        &self.background_buffer
    }

    /// Current mode: 2 OAM search, 3 pixel transfer, 0 H-blank, 1 V-blank.
    pub fn get_mode(&self) -> (r: u8)
        ensures
            r == self@.mode,
    {
        self.mode
    }

    /// Cycles counted in the current scanline or V-blank period.
    pub fn get_mode_clock(&self) -> (r: usize)
        ensures
            r == self@.mode_clock,
    {
        self.mode_clock
    }

    /// Whether the display-enable bit of the control register is set.
    pub fn is_lcd_enable(&self, mmu: &MMU) -> (r: bool)
        requires
            mmu.wf(),
        ensures
            r == (mmu@.read(0xFF40) & 0x80 != 0),
    {
        (self.get_lcdc(mmu) & 0b1000_0000) != 0
    }

    /// Reads the 16 bytes of a tile.
    pub fn get_tile(&self, mmu: &MMU, first_tile_byte_addr: u16) -> (r: [u8; 16])
        requires
            mmu.wf(),
        ensures
            r@ == tile_at(mmu@, first_tile_byte_addr),
    {
        let mut tile = [0u8; 16];
        let mut i: usize = 0;
        while i < 16
            invariant
                i <= 16,
                mmu.wf(),
                tile@.len() == 16,
                forall|k: int| 0 <= k < i ==> #[trigger] tile@[k] == mmu@.read(wrap16(first_tile_byte_addr + k)),
            decreases 16 - i,
        {
            tile[i] = mmu.read_byte(first_tile_byte_addr.wrapping_add(i as u16));
            i = i + 1;
        }
        assert(tile@ =~= tile_at(mmu@, first_tile_byte_addr));
        tile
    }

    /// Reads all 256 tiles of the tile set.
    pub fn get_tile_set(&self, mmu: &MMU) -> (r: [[u8; 16]; 256])
        requires
            mmu.wf(),
        ensures
            forall|i: int| 0 <= i < 256 ==> (#[trigger] r@[i])@ == tile_of(mmu@, i as u8),
    {
        let mut tile_set = [[0u8; 16]; 256];
        let mut i: usize = 0;
        while i < 256
            invariant
                i <= 256,
                mmu.wf(),
                tile_set@.len() == 256,
                forall|k: int| 0 <= k < i ==> (#[trigger] tile_set@[k])@ == tile_of(mmu@, k as u8),
            decreases 256 - i,
        {
            tile_set[i] = self.get_tile(mmu, TILE_SET_ADDR + (i as u16) * 16);
            i = i + 1;
        }
        tile_set
    }

    /// Reads the 32 x 32 tile map.
    pub fn get_tile_map(&self, mmu: &MMU) -> (r: [u8; 1024])
        requires
            mmu.wf(),
        ensures
            forall|i: int| 0 <= i < 1024 ==> #[trigger] r@[i] == mmu@.read((0x9800 + i) as u16),
    {
        let mut tile_map = [0u8; 1024];
        let mut i: usize = 0;
        while i < 1024
            invariant
                i <= 1024,
                mmu.wf(),
                tile_map@.len() == 1024,
                forall|k: int| 0 <= k < i ==> #[trigger] tile_map@[k] == mmu@.read((0x9800 + k) as u16),
            decreases 1024 - i,
        {
            tile_map[i] = mmu.read_byte(TILE_MAP_ADDR + i as u16);
            i = i + 1;
        }
        tile_map
    }

    /// Maps a 2-bit color index through the background palette to a shade.
    pub fn transform_pair_into_bgp_palette(&self, mmu: &MMU, pixel_pair: u8) -> (r: u8)
        requires
            mmu.wf(),
        ensures
            r == shade_of(mmu@.read(0xFF47), pixel_pair),
    {
        let bgp_palette = self.get_bgp(mmu);
        match pixel_pair {
            1 => (bgp_palette & 0b0000_1100) >> 2u8,
            2 => (bgp_palette & 0b0011_0000) >> 4u8,
            3 => (bgp_palette & 0b1100_0000) >> 6u8,
            _ => bgp_palette & 0b0000_0011,
        }
    }

    /// Maps a shade to its display color.
    pub fn transform_from_bgp_to_minifb_color(&self, bgp_palette: u8) -> (r: u32)
        ensures
            r == color_of(bgp_palette),
    {
        match bgp_palette {
            1 => LIGHT_GREEN,
            2 => DARK_GREEN,
            3 => DARKEST_GREEN,
            _ => LIGHTEST_GREEN,
        }
    }

    /// Decodes a tile into its 64 display colors, row by row.
    pub fn transform_tile_to_minifb_tile(&self, mmu: &MMU, tile: [u8; 16]) -> (r: Vec<u32>)
        requires
            mmu.wf(),
        ensures
            r@.len() == 64,
            forall|k: int| 0 <= k < 64 ==> #[trigger] r@[k] == tile_pixel(tile@, mmu@.read(0xFF47), k),
    {
        let ghost bgp = mmu@.read(0xFF47);
        let mut out: Vec<u32> = Vec::new();
        let mut row: usize = 0;
        while row < 8
            invariant
                row <= 8,
                mmu.wf(),
                bgp == mmu@.read(0xFF47),
                out@.len() == row * 8,
                forall|k: int| 0 <= k < out@.len() ==> #[trigger] out@[k] == tile_pixel(tile@, bgp, k),
            decreases 8 - row,
        {
            let first = tile[2 * row];
            let second = tile[2 * row + 1];
            let mut col: usize = 0;
            while col < 8
                invariant
                    row < 8,
                    col <= 8,
                    mmu.wf(),
                    bgp == mmu@.read(0xFF47),
                    first == tile@[2 * row as int],
                    second == tile@[2 * row + 1],
                    out@.len() == row * 8 + col,
                    forall|k: int| 0 <= k < out@.len() ==> #[trigger] out@[k] == tile_pixel(tile@, bgp, k),
                decreases 8 - col,
            {
                let j: u8 = (7 - col) as u8;
                let hi: u8 = (first >> j) & 1;
                let lo: u8 = (second >> j) & 1;
                assert(hi <= 1 && lo <= 1) by (bit_vector)
                    requires
                        hi == (first >> j) & 1,
                        lo == (second >> j) & 1,
                ;
                let pair: u8 = hi * 2 + lo;
                let shade = self.transform_pair_into_bgp_palette(mmu, pair);
                let color = self.transform_from_bgp_to_minifb_color(shade);
                proof {
                    lemma_row_col(row as int, col as int);
                }
                out.push(color);
                col = col + 1;
            }
            row = row + 1;
        }
        out
    }

    /// Rebuilds the 256 x 256 background canvas: each tile-map cell's tile is
    /// decoded and copied to the cell's place in the grid.
    pub fn populate_background_buffer(&mut self, mmu: &MMU)
        requires
            old(self).wf(),
            mmu.wf(),
        ensures
            final(self).wf(),
            final(self)@ == (PpuView { background: background_of(mmu@), ..old(self)@ }),
    {
        let tile_set = self.get_tile_set(mmu);
        let tile_map = self.get_tile_map(mmu);
        let ghost m = mmu@;
        let mut t: usize = 0;
        while t < 1024
            invariant
                t <= 1024,
                mmu.wf(),
                mmu@ == m,
                self.wf(),
                self@.mode == old(self)@.mode,
                self@.mode_clock == old(self)@.mode_clock,
                self@.viewport == old(self)@.viewport,
                forall|i: int| 0 <= i < 256 ==> (#[trigger] tile_set@[i])@ == tile_of(m, i as u8),
                forall|i: int| 0 <= i < 1024 ==> #[trigger] tile_map@[i] == m.read((0x9800 + i) as u16),
                forall|p: int|
                    0 <= p < 65536 ==> #[trigger] self@.background[p] == if cell_of(p) < t {
                        bg_pixel(m, p)
                    } else {
                        old(self)@.background[p]
                    },
            decreases 1024 - t,
        {
            let tile = tile_set[tile_map[t] as usize];
            let pixels = self.transform_tile_to_minifb_tile(mmu, tile);
            let mut i: usize = 0;
            while i < 64
                invariant
                    t < 1024,
                    i <= 64,
                    mmu@ == m,
                    self.wf(),
                    self@.mode == old(self)@.mode,
                    self@.mode_clock == old(self)@.mode_clock,
                    self@.viewport == old(self)@.viewport,
                    pixels@.len() == 64,
                    forall|k: int|
                        0 <= k < 64 ==> #[trigger] pixels@[k] == tile_pixel(
                            tile_of(m, m.read((0x9800 + t) as u16)),
                            m.read(0xFF47),
                            k,
                        ),
                    forall|p: int|
                        0 <= p < 65536 ==> #[trigger] self@.background[p] == if cell_of(p) < t || (
                        cell_of(p) == t && in_tile_of(p) < i) {
                            bg_pixel(m, p)
                        } else {
                            old(self)@.background[p]
                        },
                decreases 64 - i,
            {
                let h_offset: usize = (i % 8) + ((t % 32) * 8);
                let v_offset: usize = ((i / 8) + (t / 32) * 8) * WIDTH;
                proof {
                    lemma_pos(t as u32, i as u32);
                    assert forall|p: int| 0 <= p < 65536 implies (cell_of(p) == t && in_tile_of(p)
                        == i) == (p == pos_of(t as int, i as int)) by {
                        lemma_cell(p as u32);
                    }
                }
                self.background_buffer.set(h_offset + v_offset, pixels[i]);
                i = i + 1;
            }
            t = t + 1;
        }
        proof {
            assert forall|p: int| 0 <= p < 65536 implies cell_of(p) < 1024 by {
                lemma_cell(p as u32);
            }
        }
        assert(self@.background =~= background_of(m));
    }

    /// Cuts the visible window out of the background canvas at the current
    /// scroll offsets, wrapping around the canvas edges.
    pub fn transform_background_buffer_into_screen(&mut self, mmu: &MMU)
        requires
            old(self).wf(),
            mmu.wf(),
        ensures
            final(self).wf(),
            final(self)@.mode == old(self)@.mode,
            final(self)@.mode_clock == old(self)@.mode_clock,
            final(self)@.background == old(self)@.background,
            is_crop(final(self)@.viewport, old(self)@.background, mmu@.read(0xFF43), mmu@.read(0xFF42)),
    {
        let scx = self.get_scx(mmu) as usize;
        let scy = self.get_scy(mmu) as usize;
        let mut viewport: Vec<u32> = Vec::new();
        let mut row: usize = 0;
        while row < SCREEN_HEIGHT
            invariant
                row <= 144,
                scx < 256,
                scy < 256,
                self.wf(),
                viewport@.len() == row * 160,
                forall|r: int, c: int|
                    0 <= r < row && 0 <= c < 160 ==> #[trigger] viewport@[r * 160 + c]
                        == self@.background[((scy + r) % 256) * 256 + (scx + c) % 256],
            decreases 144 - row,
        {
            let line = ((scy + row) % 256) * WIDTH;
            let mut col: usize = 0;
            while col < SCREEN_WIDTH
                invariant
                    row < 144,
                    col <= 160,
                    scx < 256,
                    scy < 256,
                    self.wf(),
                    line == ((scy + row) % 256) * 256,
                    viewport@.len() == row * 160 + col,
                    forall|r: int, c: int|
                        0 <= r < 144 && 0 <= c < 160 && r * 160 + c < viewport@.len()
                            ==> #[trigger] viewport@[r * 160 + c]
                            == self@.background[((scy + r) % 256) * 256 + (scx + c) % 256],
                decreases 160 - col,
            {
                let x = (scx + col) % 256;
                let pixel = self.background_buffer[line + x];
                let ghost before = viewport@;
                viewport.push(pixel);
                proof {
                    assert forall|r: int, c: int|
                        0 <= r < 144 && 0 <= c < 160 && r * 160 + c < viewport@.len() implies #[trigger] viewport@[r
                        * 160 + c] == self@.background[((scy + r) % 256) * 256 + (scx + c) % 256] by {
                        if r * 160 + c == before.len() {
                            lemma_unique_rc(r, c, row as int, col as int);
                        } else {
                            assert(viewport@[r * 160 + c] == before[r * 160 + c]);
                        }
                    }
                }
                col = col + 1;
            }
            proof {
                assert forall|r: int, c: int|
                    0 <= r < row + 1 && 0 <= c < 160 implies #[trigger] viewport@[r * 160 + c]
                        == self@.background[((scy + r) % 256) * 256 + (scx + c) % 256] by {
                    assert(r * 160 + c < (row + 1) * 160) by (nonlinear_arith)
                        requires
                            0 <= r < row + 1,
                            0 <= c < 160,
                    ;
                }
            }
            row = row + 1;
        }
        self.viewport = viewport;
        assert(is_crop(self@.viewport, old(self)@.background, mmu@.read(0xFF43), mmu@.read(0xFF42)));
    }

    /// Advances the timing machine by `cpu_clocks_passed` cycles and
    /// publishes scanline and status; the coincidence bit compares the
    /// scanline counter as published in this step, after any wrap to 0. A
    /// scanline ends once the mode clock reaches 456: cycles summing to
    /// exactly 456 from the start of a visible line move the scanline counter
    /// on and reset the clock to 0. On entering OAM search it rebuilds the buffers
    /// that the dirty flags of the store call for, and clears those flags.
    /// With the display off nothing changes.
    pub fn step(&mut self, cpu_clocks_passed: usize, mmu: &mut MMU)
        requires
            old(self).wf(),
            old(mmu).wf(),
        ensures
            final(self).wf(),
            final(mmu).wf(),
            stepped(old(self)@, old(mmu)@, cpu_clocks_passed as int, final(self)@, final(mmu)@),
    {
        let lcdc: u8 = mmu.read_byte(LCDC_ADDR);
        if (lcdc & 0b1000_0000) != 0 {
            self.mode_clock = self.mode_clock.saturating_add(cpu_clocks_passed);
            let mut ly: u8 = mmu.read_byte(LY_ADDR);
            if self.mode_clock >= 456 && self.mode != 1 {
                ly = ly.wrapping_add(1);
                mmu.write_byte(LY_ADDR, ly);
                if ly <= 144 {
                    self.mode_clock = 0;
                }
            }
            let t = self.mode_clock;
            if t <= 80 {
                self.mode = 2;
            } else if t <= 252 {
                self.mode = 3;
            } else if t <= 456 {
                self.mode = 0;
            } else if t <= 4560 {
                self.mode = 1;
            } else {
                self.mode = 2;
                self.mode_clock = 0;
                if ly > 154 {
                    mmu.write_byte(LY_ADDR, 0);
                    ly = 0;
                }
            }
            let lyc = mmu.read_byte(LYC_ADDR);
            let low: u8 = if ly == lyc {
                0b100 | self.mode
            } else {
                self.mode
            };
            let current_stat = (mmu.read_byte(STAT_ADDR) & 0b1111_1000) | low;
            mmu.write_byte(STAT_ADDR, current_stat);
            if self.mode == 2 {
                if mmu.is_vram_dirty() {
                    self.populate_background_buffer(mmu);
                    self.transform_background_buffer_into_screen(mmu);
                    mmu.clear_vram_dirty();
                }
                if mmu.is_viewport_dirty() {
                    self.transform_background_buffer_into_screen(mmu);
                    mmu.clear_viewport_dirty();
                }
            }
        }
    }
}

proof fn lemma_unique_rc(r: int, c: int, row: int, col: int)
    requires
        0 <= r,
        0 <= c < 160,
        0 <= row,
        0 <= col < 160,
        r * 160 + c == row * 160 + col,
    ensures
        r == row,
        c == col,
{
    assert(r == row && c == col) by (nonlinear_arith)
        requires
            0 <= r,
            0 <= c < 160,
            0 <= row,
            0 <= col < 160,
            r * 160 + c == row * 160 + col,
    ;
}

} // verus!
