//! The memory bus: one 16-bit address space routed onto its backing regions.

use vstd::prelude::*;

use crate::error::EmulatorError;
use crate::graphics::{GPU, VRAM_BEGIN, VRAM_END, VRAM_SIZE};

verus! {

pub const BOOT_ROM_BEGIN: usize = 0x00;
pub const BOOT_ROM_END: usize = 0xFF;
pub const BOOT_ROM_SIZE: usize = BOOT_ROM_END - BOOT_ROM_BEGIN + 1;

pub const ROM_BANK_0_BEGIN: usize = 0x0000;
pub const ROM_BANK_0_END: usize = 0x3FFF;
pub const ROM_BANK_0_SIZE: usize = ROM_BANK_0_END - ROM_BANK_0_BEGIN + 1;

pub const ROM_BANK_N_BEGIN: usize = 0x4000;
pub const ROM_BANK_N_END: usize = 0x7FFF;
pub const ROM_BANK_N_SIZE: usize = ROM_BANK_N_END - ROM_BANK_N_BEGIN + 1;

pub const EXTERNAL_RAM_BEGIN: usize = 0xA000;
pub const EXTERNAL_RAM_END: usize = 0xBFFF;
pub const EXTERNAL_RAM_SIZE: usize = EXTERNAL_RAM_END - EXTERNAL_RAM_BEGIN + 1;

pub const WORKING_RAM_BEGIN: usize = 0xC000;
pub const WORKING_RAM_END: usize = 0xDFFF;
pub const WORKING_RAM_SIZE: usize = WORKING_RAM_END - WORKING_RAM_BEGIN + 1;

pub const ECHO_RAM_BEGIN: usize = 0xE000;
pub const ECHO_RAM_END: usize = 0xFDFF;

pub const ZERO_PAGE_BEGIN: usize = 0xFF80;
pub const ZERO_PAGE_END: usize = 0xFFFE;
pub const ZERO_PAGE_SIZE: usize = ZERO_PAGE_END - ZERO_PAGE_BEGIN + 1;

/// The length a cartridge image must have at least: both ROM banks.
pub const CARTRIDGE_MIN_SIZE: usize = ROM_BANK_0_SIZE + ROM_BANK_N_SIZE;

/// A backing store of the bus.
#[derive(Clone, Copy, Debug, PartialEq, Eq, Structural)]
pub enum Store {
    RomBank0,
    RomBankN,
    VideoRam,
    ExternalRam,
    WorkingRam,
    ZeroPage,
}

/// The store that an address is routed to, and the offset in it, leaving the
/// boot overlay aside. Echo RAM lands in working RAM, at the same offset
/// as the working RAM address `0x2000` below it.
pub open spec fn backing(address: u16) -> Option<(Store, int)> {
    let a = address as int;
    if a <= ROM_BANK_0_END {
        Some((Store::RomBank0, a - ROM_BANK_0_BEGIN))
    } else if a <= ROM_BANK_N_END {
        Some((Store::RomBankN, a - ROM_BANK_N_BEGIN))
    } else if a <= VRAM_END {
        Some((Store::VideoRam, a - VRAM_BEGIN))
    } else if a <= EXTERNAL_RAM_END {
        Some((Store::ExternalRam, a - EXTERNAL_RAM_BEGIN))
    } else if a <= WORKING_RAM_END {
        Some((Store::WorkingRam, a - WORKING_RAM_BEGIN))
    } else if a <= ECHO_RAM_END {
        Some((Store::WorkingRam, a - ECHO_RAM_BEGIN))
    } else if ZERO_PAGE_BEGIN <= a <= ZERO_PAGE_END {
        Some((Store::ZeroPage, a - ZERO_PAGE_BEGIN))
    } else {
        None
    }
}

/// Whether some declared region covers `address`.
pub open spec fn mapped(address: u16) -> bool {
    backing(address) is Some
}

/// `n` zero bytes.
pub open spec fn zeros(n: nat) -> Seq<u8> {
    Seq::new(n, |i: int| 0u8)
}

/// The contents of every region of the bus.
pub struct BusView {
    pub boot_rom: Option<Seq<u8>>,
    pub rom_bank_0: Seq<u8>,
    pub rom_bank_n: Seq<u8>,
    pub video_ram: Seq<u8>,
    pub external_ram: Seq<u8>,
    pub working_ram: Seq<u8>,
    pub zero_page: Seq<u8>,
}

impl BusView {
    /// Every region has its declared size.
    pub open spec fn wf(self) -> bool {
        &&& (self.boot_rom matches Some(b) ==> b.len() == BOOT_ROM_SIZE)
        &&& self.rom_bank_0.len() == ROM_BANK_0_SIZE
        &&& self.rom_bank_n.len() == ROM_BANK_N_SIZE
        &&& self.video_ram.len() == VRAM_SIZE
        &&& self.external_ram.len() == EXTERNAL_RAM_SIZE
        &&& self.working_ram.len() == WORKING_RAM_SIZE
        &&& self.zero_page.len() == ZERO_PAGE_SIZE
    }

    pub open spec fn store(self, s: Store) -> Seq<u8> {
        match s {
            Store::RomBank0 => self.rom_bank_0,
            Store::RomBankN => self.rom_bank_n,
            Store::VideoRam => self.video_ram,
            Store::ExternalRam => self.external_ram,
            Store::WorkingRam => self.working_ram,
            Store::ZeroPage => self.zero_page,
        }
    }

    pub open spec fn with_store(self, s: Store, bytes: Seq<u8>) -> BusView {
        match s {
            Store::RomBank0 => BusView { rom_bank_0: bytes, ..self },
            Store::RomBankN => BusView { rom_bank_n: bytes, ..self },
            Store::VideoRam => BusView { video_ram: bytes, ..self },
            Store::ExternalRam => BusView { external_ram: bytes, ..self },
            Store::WorkingRam => BusView { working_ram: bytes, ..self },
            Store::ZeroPage => BusView { zero_page: bytes, ..self },
        }
    }

    /// Whether a read of `address` is answered by the boot overlay.
    pub open spec fn boot_shadows(self, address: u16) -> bool {
        self.boot_rom is Some && address <= BOOT_ROM_END
    }

    /// The byte at `address`, or `None` where no region covers it.
    pub open spec fn read(self, address: u16) -> Option<u8> {
        if self.boot_shadows(address) {
            Some(self.boot_rom->0[address as int])
        } else {
            match backing(address) {
                Some((s, offset)) => Some(self.store(s)[offset]),
                None => None,
            }
        }
    }

    /// A read as the bus reports it.
    pub open spec fn load(self, address: u16) -> Result<u8, EmulatorError> {
        match self.read(address) {
            Some(b) => Ok(b),
            None => Err(EmulatorError::AddressOutOfRange { address }),
        }
    }

    /// The bus after `byte` is written to `address`. Writes below
    /// `0x4000` go to ROM bank 0, also while the boot overlay is active.
    pub open spec fn write(self, address: u16, byte: u8) -> Result<BusView, EmulatorError> {
        match backing(address) {
            Some((s, offset)) => Ok(self.with_store(s, self.store(s).update(offset, byte))),
            None => Err(EmulatorError::AddressOutOfRange { address }),
        }
    }
}

/// The address space: the boot overlay while it is active, two ROM banks,
/// video RAM, external RAM, working RAM with its echo, and the zero page.
pub struct MemoryBus {
    boot_rom: Option<Vec<u8>>,
    rom_bank_0: Vec<u8>,
    rom_bank_n: Vec<u8>,
    external_ram: Vec<u8>,
    working_ram: Vec<u8>,
    zero_page: Vec<u8>,
    graphics: GPU,
}

impl View for MemoryBus {
    type V = BusView;

    closed spec fn view(&self) -> BusView {
        BusView {
            boot_rom: match self.boot_rom {
                Some(b) => Some(b@),
                None => None,
            },
            rom_bank_0: self.rom_bank_0@,
            rom_bank_n: self.rom_bank_n@,
            video_ram: self.graphics.vram@,
            external_ram: self.external_ram@,
            working_ram: self.working_ram@,
            zero_page: self.zero_page@,
        }
    }
}

/// `n` zero bytes.
fn zeroed(n: usize) -> (v: Vec<u8>)
    ensures
        v@ == zeros(n as nat),
{
    let mut v: Vec<u8> = Vec::new();
    let mut i: usize = 0;
    while i < n
        invariant
            i <= n,
            v@ == zeros(i as nat),
        decreases n - i,
    {
        v.push(0);
        i = i + 1;
        assert(v@ =~= zeros(i as nat));
    }
    v
}

/// The bytes `from..from + len` of `src`.
fn copy_range(src: &Vec<u8>, from: usize, len: usize) -> (v: Vec<u8>)
    requires
        from + len <= src.len(),
    ensures
        v@ == src@.subrange(from as int, from + len),
{
    let mut v: Vec<u8> = Vec::new();
    let mut i: usize = 0;
    while i < len
        invariant
            i <= len,
            from + len <= src.len(),
            v@ == src@.subrange(from as int, from + i),
        decreases len - i,
    {
        v.push(src[from + i]);
        i = i + 1;
        assert(v@ =~= src@.subrange(from as int, from + i));
    }
    v
}

impl MemoryBus {
    /// Builds the bus from an optional boot image, which must be exactly
    /// `BOOT_ROM_SIZE` bytes, and a cartridge image, whose first two 16 KiB
    /// blocks fill ROM bank 0 and ROM bank N; any further bytes are unused.
    /// All RAM starts zeroed.
    pub fn new(boot_rom_buffer: Option<Vec<u8>>, game_rom: Vec<u8>) -> (r: Result<
        MemoryBus,
        EmulatorError,
    >)
        ensures
            r is Err <==> (boot_rom_buffer matches Some(b) && b@.len() != BOOT_ROM_SIZE)
                || game_rom@.len() < CARTRIDGE_MIN_SIZE,
            r is Err ==> r == Err::<MemoryBus, EmulatorError>(EmulatorError::ConfigurationError),
            r matches Ok(bus) ==> bus@ == (BusView {
                boot_rom: match boot_rom_buffer {
                    Some(b) => Some(b@),
                    None => None,
                },
                rom_bank_0: game_rom@.subrange(0, ROM_BANK_0_SIZE as int),
                rom_bank_n: game_rom@.subrange(ROM_BANK_0_SIZE as int, CARTRIDGE_MIN_SIZE as int),
                video_ram: zeros(VRAM_SIZE as nat),
                external_ram: zeros(EXTERNAL_RAM_SIZE as nat),
                working_ram: zeros(WORKING_RAM_SIZE as nat),
                zero_page: zeros(ZERO_PAGE_SIZE as nat),
            }),
            r matches Ok(bus) ==> bus@.wf(),
    {
        if let Some(b) = &boot_rom_buffer {
            if b.len() != BOOT_ROM_SIZE {
                return Err(EmulatorError::ConfigurationError);
            }
        }
        if game_rom.len() < CARTRIDGE_MIN_SIZE {
            return Err(EmulatorError::ConfigurationError);
        }
        let rom_bank_0 = copy_range(&game_rom, 0, ROM_BANK_0_SIZE);
        let rom_bank_n = copy_range(&game_rom, ROM_BANK_0_SIZE, ROM_BANK_N_SIZE);
        let graphics = GPU::new();
        Ok(MemoryBus {
            boot_rom: boot_rom_buffer,
            rom_bank_0,
            rom_bank_n,
            external_ram: zeroed(EXTERNAL_RAM_SIZE),
            working_ram: zeroed(WORKING_RAM_SIZE),
            zero_page: zeroed(ZERO_PAGE_SIZE),
            graphics,
        })
    }

    /// The video RAM and tile set that the renderer reads.
    pub fn graphics(&self) -> (g: &GPU)
        ensures
            g.vram@ == self@.video_ram,
    {
        &self.graphics
    }

    /// Whether some declared region covers `address`, so that a read or a
    /// write there succeeds.
    pub fn is_mapped(&self, address: u16) -> (r: bool)
        ensures
            r == mapped(address),
    {
        let a = address as usize;
        a <= ECHO_RAM_END || (ZERO_PAGE_BEGIN <= a && a <= ZERO_PAGE_END)
    }

    pub fn read_byte(&self, address: u16) -> (r: Result<u8, EmulatorError>)
        requires
            self@.wf(),
        ensures
            r == self@.load(address),
    {
        let a = address as usize;
        if a <= BOOT_ROM_END {
            if let Some(boot_rom) = &self.boot_rom {
                return Ok(boot_rom[a]);
            }
        }
        if a <= ROM_BANK_0_END {
            Ok(self.rom_bank_0[a - ROM_BANK_0_BEGIN])
        } else if a <= ROM_BANK_N_END {
            Ok(self.rom_bank_n[a - ROM_BANK_N_BEGIN])
        } else if a <= VRAM_END {
            Ok(self.graphics.vram[a - VRAM_BEGIN])
        } else if a <= EXTERNAL_RAM_END {
            Ok(self.external_ram[a - EXTERNAL_RAM_BEGIN])
        } else if a <= WORKING_RAM_END {
            Ok(self.working_ram[a - WORKING_RAM_BEGIN])
        } else if a <= ECHO_RAM_END {
            Ok(self.working_ram[a - ECHO_RAM_BEGIN])
        } else if ZERO_PAGE_BEGIN <= a && a <= ZERO_PAGE_END {
            Ok(self.zero_page[a - ZERO_PAGE_BEGIN])
        } else {
            Err(EmulatorError::AddressOutOfRange { address })
        }
    }

    /// Writes `byte` to `address`; where no region covers the address the
    /// bus is left as it was.
    pub fn write_byte(&mut self, address: u16, byte: u8) -> (r: Result<(), EmulatorError>)
        requires
            old(self)@.wf(),
        ensures
            match old(self)@.write(address, byte) {
                Ok(v) => r is Ok && final(self)@ == v,
                Err(e) => r == Err::<(), EmulatorError>(e) && final(self)@ == old(self)@,
            },
            final(self)@.wf(),
    {
        let a = address as usize;
        if a <= ROM_BANK_0_END {
            self.rom_bank_0[a - ROM_BANK_0_BEGIN] = byte;
        } else if a <= ROM_BANK_N_END {
            self.rom_bank_n[a - ROM_BANK_N_BEGIN] = byte;
        } else if a <= VRAM_END {
            self.graphics.vram[a - VRAM_BEGIN] = byte;
        } else if a <= EXTERNAL_RAM_END {
            self.external_ram[a - EXTERNAL_RAM_BEGIN] = byte;
        } else if a <= WORKING_RAM_END {
            self.working_ram[a - WORKING_RAM_BEGIN] = byte;
        } else if a <= ECHO_RAM_END {
            self.working_ram[a - ECHO_RAM_BEGIN] = byte;
        } else if ZERO_PAGE_BEGIN <= a && a <= ZERO_PAGE_END {
            self.zero_page[a - ZERO_PAGE_BEGIN] = byte;
        } else {
            return Err(EmulatorError::AddressOutOfRange { address });
        }
        Ok(())
    }
}

/// Echo RAM and working RAM share their bytes: a byte written through an
/// echo address reads back from the working RAM address `0x2000` below it,
/// and a byte written there reads back through the echo address.
pub proof fn lemma_echo_aliases_working_ram(bus: BusView, address: u16, byte: u8)
    requires
        bus.wf(),
        ECHO_RAM_BEGIN <= address <= ECHO_RAM_END,
    ensures
        bus.write(address, byte) matches Ok(b) && b.read((address - 0x2000) as u16) == Some(byte),
        bus.write((address - 0x2000) as u16, byte) matches Ok(b) && b.read(address) == Some(byte),
{
}

/// A read succeeds exactly where some region covers the address.
pub proof fn lemma_load_ok_iff_mapped(bus: BusView, address: u16)
    ensures
        bus.load(address) is Ok <==> mapped(address),
{
}

/// A write keeps every region at its size.
pub proof fn lemma_write_keeps_wf(bus: BusView, address: u16, byte: u8)
    requires
        bus.wf(),
    ensures
        bus.write(address, byte) matches Ok(b) ==> b.wf(),
        bus.write(address, byte) is Ok <==> mapped(address),
{
}

} // verus!
