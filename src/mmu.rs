//! The addressable store: 64K bytes of memory with a boot overlay over the
//! lowest addresses, and two flags that record writes to video memory and
//! to the scroll registers.
use vstd::prelude::*;

verus! {

/// Number of addressable bytes.
pub const RAM_SIZE: usize = 65536;
/// Size of the boot overlay.
pub const BOOT_ROM_SIZE: usize = 256;
/// Writing a non-zero byte here turns the boot overlay off.
pub const BOOT_OFF_ADDR: u16 = 0xFF50;
/// First byte of video memory.
pub const VRAM_START: u16 = 0x8000;
/// One past the last byte of video memory.
pub const VRAM_END: u16 = 0xA000;
/// Vertical scroll register.
pub const SCY_ADDR: u16 = 0xFF42;
/// Horizontal scroll register.
pub const SCX_ADDR: u16 = 0xFF43;

/// The mathematical model of the store.
pub ghost struct MemView {
    pub ram: Seq<u8>,
    pub boot: Seq<u8>,
    pub dirty_vram: bool,
    pub dirty_viewport: bool,
}

impl MemView {
    pub open spec fn wf(self) -> bool {
        self.ram.len() == 65536 && self.boot.len() == 256
    }

    /// The boot overlay shadows an address while the disable byte is zero.
    pub open spec fn shadowed(self, addr: u16) -> bool {
        addr <= 0xFF && self.ram[0xFF50] == 0
    }

    /// The byte that a read at `addr` returns.
    pub open spec fn read(self, addr: u16) -> u8 {
        if self.shadowed(addr) {
            self.boot[addr as int]
        } else {
            self.ram[addr as int]
        }
    }

    /// The store after one byte is written, with the side-channel flags it raises.
    pub open spec fn write(self, addr: u16, value: u8) -> MemView {
        MemView {
            ram: self.ram.update(addr as int, value),
            boot: self.boot,
            dirty_vram: self.dirty_vram || (0x8000 <= addr && addr < 0xA000),
            dirty_viewport: self.dirty_viewport || addr == 0xFF42 || addr == 0xFF43,
        }
    }

    /// The store after `rom` is written from address 0 on.
    pub open spec fn load(self, rom: Seq<u8>) -> MemView {
        MemView {
            ram: rom + self.ram.subrange(rom.len() as int, 65536),
            boot: self.boot,
            dirty_vram: self.dirty_vram || rom.len() > 0x8000,
            dirty_viewport: self.dirty_viewport || rom.len() > 0xFF42,
        }
    }
}

pub struct MMU {
    ram: [u8; 65536],
    boot_rom: [u8; 256],
    dirty_vram_flag: bool,
    dirty_viewport_flag: bool,
}

impl View for MMU {
    type V = MemView;

    closed spec fn view(&self) -> MemView {
        MemView {
            ram: self.ram@,
            boot: self.boot_rom@,
            dirty_vram: self.dirty_vram_flag,
            dirty_viewport: self.dirty_viewport_flag,
        }
    }
}

impl MMU {
    pub open spec fn wf(&self) -> bool {
        self@.wf()
    }

    /// Powers on with every byte and the whole boot overlay zeroed and both flags clear.
    pub fn new() -> (r: MMU)
        ensures
            r.wf(),
            forall|i: int| 0 <= i < 65536 ==> #[trigger] r@.ram[i] == 0,
            forall|i: int| 0 <= i < 256 ==> #[trigger] r@.boot[i] == 0,
            !r@.dirty_vram,
            !r@.dirty_viewport,
    {
        MMU {
            ram: [0u8; 65536],
            boot_rom: [0u8; 256],
            dirty_vram_flag: false,
            dirty_viewport_flag: false,
        }
    }

    /// Whether video memory was written since the flag was last cleared.
    pub fn is_vram_dirty(&self) -> (r: bool)
        ensures
            r == self@.dirty_vram,
    {
        self.dirty_vram_flag
    }

    /// Whether a scroll register was written since the flag was last cleared.
    pub fn is_viewport_dirty(&self) -> (r: bool)
        ensures
            r == self@.dirty_viewport,
    {
        self.dirty_viewport_flag
    }

    pub fn clear_vram_dirty(&mut self)
        ensures
            final(self)@ == (MemView { dirty_vram: false, ..old(self)@ }),
    {
        self.dirty_vram_flag = false;
    }

    pub fn clear_viewport_dirty(&mut self)
        ensures
            final(self)@ == (MemView { dirty_viewport: false, ..old(self)@ }),
    {
        self.dirty_viewport_flag = false;
    }

    pub fn write_byte(&mut self, address: u16, value: u8)
        requires
            old(self).wf(),
        ensures
            final(self)@ == old(self)@.write(address, value),
            final(self).wf(),
    {
        self.ram[address as usize] = value;
        if address >= VRAM_START && address < VRAM_END {
            self.dirty_vram_flag = true;
        }
        if address == SCY_ADDR || address == SCX_ADDR {
            self.dirty_viewport_flag = true;
        }
    }

    pub fn read_byte(&self, address: u16) -> (r: u8)
        requires
            self.wf(),
        ensures
            r == self@.read(address),
    {
        if address <= 0x00FF && self.ram[BOOT_OFF_ADDR as usize] == 0 {
            self.boot_rom[address as usize]
        } else {
            self.ram[address as usize]
        }
    }

    /// Writes a program image into memory from address 0 on.
    pub fn from_rom_file(&mut self, rom_file: &[u8])
        requires
            old(self).wf(),
            rom_file@.len() <= 65536,
        ensures
            final(self).wf(),
            final(self)@ == old(self)@.load(rom_file@),
    {
        let n: usize = rom_file.len();
        let mut i: usize = 0;
        while i < n
            invariant
                n == rom_file@.len(),
                n <= 65536,
                i <= n,
                self.wf(),
                self@.boot == old(self)@.boot,
                forall|k: int| 0 <= k < i ==> #[trigger] self@.ram[k] == rom_file@[k],
                forall|k: int| i <= k < 65536 ==> #[trigger] self@.ram[k] == old(self)@.ram[k],
                self@.dirty_vram == (old(self)@.dirty_vram || i > 0x8000),
                self@.dirty_viewport == (old(self)@.dirty_viewport || i > 0xFF42),
            decreases n - i,
        {
            self.write_byte(i as u16, rom_file[i]);
            i = i + 1;
        }
        assert(self@.ram =~= old(self)@.load(rom_file@).ram);
    }

    /// Replaces the start of the boot overlay with `bytes`, up to its size.
    pub fn load_boot_rom(&mut self, bytes: &[u8])
        requires
            old(self).wf(),
        ensures
            final(self).wf(),
            final(self)@.ram == old(self)@.ram,
            final(self)@.dirty_vram == old(self)@.dirty_vram,
            final(self)@.dirty_viewport == old(self)@.dirty_viewport,
            forall|k: int|
                0 <= k < 256 ==> #[trigger] final(self)@.boot[k] == if k < bytes@.len() {
                    bytes@[k]
                } else {
                    old(self)@.boot[k]
                },
    {
        let mut i: usize = 0;
        while i < bytes.len() && i < BOOT_ROM_SIZE
            invariant
                i <= 256,
                self.wf(),
                self@.ram == old(self)@.ram,
                self@.dirty_vram == old(self)@.dirty_vram,
                self@.dirty_viewport == old(self)@.dirty_viewport,
                forall|k: int|
                    0 <= k < 256 ==> #[trigger] self@.boot[k] == if k < i && k < bytes@.len() {
                        bytes@[k]
                    } else {
                        old(self)@.boot[k]
                    },
            decreases 256 - i,
        {
            self.boot_rom[i] = bytes[i];
            i = i + 1;
        }
    }
}

} // verus!
