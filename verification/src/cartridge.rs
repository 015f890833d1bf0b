//! The cartridge: the ROM image, the external RAM region, and the banking
//! controller latches that remap the switchable ROM and RAM windows.

use vstd::prelude::*;

verus! {

/// Why a cartridge image is rejected at load time.  Construction validates
/// the header and aborts with no partial state.
#[derive(Clone, Copy, PartialEq, Eq, Structural, Debug)]
pub enum LoadError {
    /// The image is too short to hold the cartridge header.
    HeaderTooShort,
    /// The ROM-size code is not one of the defined values.
    InvalidRomSize,
    /// The RAM-size code is not one of the defined values.
    InvalidRamSize,
    /// The header checksum over bytes 0x134-0x14C does not match byte 0x14D.
    ChecksumMismatch,
    /// The declared ROM size differs from the actual image length.
    LengthMismatch,
}

/// The running header checksum after folding bytes 0x134 up to (excluding)
/// `n`: each byte is subtracted, then one more, with 8-bit wrap-around.
pub open spec fn checksum_upto(rom: Seq<u8>, n: int) -> u8
    decreases n,
{
    if n <= 0x134 {
        0
    } else {
        checksum_upto(rom, n - 1).wrapping_sub(rom[n - 1]).wrapping_sub(1)
    }
}

/// The header checksum over bytes 0x134-0x14C.
pub open spec fn header_checksum(rom: Seq<u8>) -> u8 {
    checksum_upto(rom, 0x14D)
}

/// The ROM size declared by header byte 0x148: 32 KiB doubled `code` times.
/// Codes above 8 are not defined.
pub open spec fn declared_rom_size(code: u8) -> int {
    16384 * declared_rom_banks(code)
}

/// The ROM bank count declared by header byte 0x148.
pub open spec fn declared_rom_banks(code: u8) -> int {
    if code == 0 {
        2
    } else if code == 1 {
        4
    } else if code == 2 {
        8
    } else if code == 3 {
        16
    } else if code == 4 {
        32
    } else if code == 5 {
        64
    } else if code == 6 {
        128
    } else if code == 7 {
        256
    } else {
        512
    }
}

/// The external RAM size declared by header byte 0x149.  Codes above 5 are
/// not defined.
pub open spec fn declared_ram_size(code: u8) -> int {
    if code == 0 {
        0
    } else if code == 1 {
        2048
    } else if code == 2 {
        8192
    } else if code == 3 {
        32768
    } else if code == 4 {
        131072
    } else {
        65536
    }
}

/// The error a cartridge image is rejected with, or `None` when it loads.
pub open spec fn load_check(rom: Seq<u8>) -> Option<LoadError> {
    if rom.len() < 0x150 {
        Some(LoadError::HeaderTooShort)
    } else if rom[0x148] > 8 {
        Some(LoadError::InvalidRomSize)
    } else if rom[0x149] > 5 {
        Some(LoadError::InvalidRamSize)
    } else if header_checksum(rom) != rom[0x14D] {
        Some(LoadError::ChecksumMismatch)
    } else if declared_rom_size(rom[0x148]) != rom.len() {
        Some(LoadError::LengthMismatch)
    } else {
        None
    }
}

/// The bank number requested by the banking latches before remapping: in
/// banking mode only the lower five bits count, otherwise the upper two bits
/// sit above them.
pub open spec fn requested_bank(mode: bool, lower: u8, upper: u8) -> u8 {
    if mode {
        lower
    } else {
        (upper << 5) | lower
    }
}

/// The hardware quirk: bank numbers whose low five bits are zero select the
/// next bank up, so logical bank 0 resolves to bank 1.
pub open spec fn remapped_bank(bank: u8) -> u8 {
    if bank == 0 || bank == 0x20 || bank == 0x40 || bank == 0x60 {
        (bank + 1) as u8
    } else {
        bank
    }
}

/// The effective ROM bank: the requested bank, remapped, masked to the
/// cartridge's bank count.
pub open spec fn rom_bank_spec(mode: bool, lower: u8, upper: u8, num_banks: u16) -> u8 {
    remapped_bank(requested_bank(mode, lower, upper)) & (#[verifier::truncate] ((num_banks
        - 1) as u8))
}

/// The effective external RAM bank: the upper latch in banking mode, else 0.
pub open spec fn ram_bank_spec(mode: bool, upper: u8) -> u8 {
    if mode {
        upper
    } else {
        0
    }
}

pub struct Cartridge {
    /// The ROM image, immutable after load.
    pub rom: Vec<u8>,
    /// The external RAM region.
    pub ram: Vec<u8>,
    /// Header byte 0x147: the bank-controller type code.
    pub mbc_type: u8,
    /// External RAM enable latch.
    pub ram_enable: bool,
    /// Upper two bank-select bits (ROM bank high bits or RAM bank).
    pub bank_no_upper: u8,
    /// Lower five bank-select bits.
    pub bank_no_lower: u8,
    /// Number of ROM banks declared by the header.
    pub num_rom_banks: u16,
    /// Banking mode latch: set steers the upper bits to the RAM bank.
    pub mode: bool,
    /// Header byte 0x143: the color compatibility flag.
    pub cgb_flg: u8,
}

impl Cartridge {
    /// Well-formedness: the image length matches the declared bank count,
    /// the bank count is one of the defined powers of two, and the banking
    /// latches hold only their defined bits.
    pub open spec fn inv(self) -> bool {
        &&& self.rom@.len() == 16384 * self.num_rom_banks
        &&& (self.num_rom_banks == 2 || self.num_rom_banks == 4 || self.num_rom_banks == 8
            || self.num_rom_banks == 16 || self.num_rom_banks == 32 || self.num_rom_banks == 64
            || self.num_rom_banks == 128 || self.num_rom_banks == 256 || self.num_rom_banks == 512)
        &&& self.bank_no_lower <= 0x1F
        &&& self.bank_no_upper <= 0x03
    }

    /// Loads a cartridge image.  The header checksum over bytes 0x134-0x14C
    /// must match byte 0x14D and the declared ROM size must equal the image
    /// length; a mismatch aborts the load with the corresponding error and
    /// no partial state.  The external RAM starts zeroed at its declared
    /// size, and every banking latch starts clear.
    pub fn new(rom: Vec<u8>) -> (r: Result<Cartridge, LoadError>)
        ensures
            r is Ok <==> load_check(rom@) is None,
            r matches Err(e) ==> load_check(rom@) == Some(e),
            r matches Ok(c) ==> ({
                &&& c.inv()
                &&& c.rom@ == rom@
                &&& c.ram@ == Seq::<u8>::new(declared_ram_size(rom@[0x149]) as nat, |i: int| 0u8)
                &&& c.mbc_type == rom@[0x147]
                &&& c.cgb_flg == rom@[0x143]
                &&& c.num_rom_banks == declared_rom_banks(rom@[0x148])
                &&& !c.ram_enable
                &&& c.bank_no_lower == 0
                &&& c.bank_no_upper == 0
                &&& !c.mode
            }),
    {
        if rom.len() < 0x150 {
            return Err(LoadError::HeaderTooShort);
        }

        let cgb_flg: u8 = rom[0x0143];
        let mbc_type: u8 = rom[0x0147];
        let rom_size_code: u8 = rom[0x0148];
        let ram_size_code: u8 = rom[0x0149];

        if rom_size_code > 8 {
            return Err(LoadError::InvalidRomSize);
        }
        if ram_size_code > 5 {
            return Err(LoadError::InvalidRamSize);
        }

        let num_rom_banks: u16 = match rom_size_code {
            0 => 2,
            1 => 4,
            2 => 8,
            3 => 16,
            4 => 32,
            5 => 64,
            6 => 128,
            7 => 256,
            _ => 512,
        };
        let rom_size: usize = 16384 * (num_rom_banks as usize);

        let ram_size: usize = match ram_size_code {
            0 => 0,
            1 => 2 * 1024,
            2 => 8 * 1024,
            3 => 32 * 1024,
            4 => 128 * 1024,
            _ => 64 * 1024,
        };

        let mut chksum: u8 = 0;
        let mut i: usize = 0x0134;
        while i < 0x014D
            invariant
                0x0134 <= i <= 0x014D,
                rom@.len() >= 0x150,
                chksum == checksum_upto(rom@, i as int),
            decreases 0x014D - i,
        {
            chksum = chksum.wrapping_sub(rom[i]).wrapping_sub(1);
            i = i + 1;
        }

        if chksum != rom[0x014D] {
            return Err(LoadError::ChecksumMismatch);
        }

        if rom_size != rom.len() {
            return Err(LoadError::LengthMismatch);
        }

        let mut ram: Vec<u8> = Vec::new();
        let mut j: usize = 0;
        while j < ram_size
            invariant
                j <= ram_size,
                ram@ =~= Seq::<u8>::new(j as nat, |k: int| 0u8),
            decreases ram_size - j,
        {
            ram.push(0);
            j = j + 1;
        }
        proof {
            assert(ram@ =~= Seq::<u8>::new(ram_size as nat, |k: int| 0u8));
        }

        Ok(
            Cartridge {
                rom,
                ram,
                mbc_type,
                ram_enable: false,
                bank_no_upper: 0,
                bank_no_lower: 0,
                num_rom_banks,
                mode: false,
                cgb_flg,
            },
        )
    }

    /// The effective ROM bank selected by the banking latches; always below
    /// the cartridge's bank count.
    pub fn rom_bank_no(&self) -> (bank: u8)
        requires
            self.inv(),
        ensures
            bank == rom_bank_spec(self.mode, self.bank_no_lower, self.bank_no_upper,
                self.num_rom_banks),
            bank < self.num_rom_banks,
    {
        let bank_no = if self.mode {
            self.bank_no_lower
        } else {
            self.bank_no_upper << 5 | self.bank_no_lower
        };

        let bank_no = match bank_no {
            0 | 0x20 | 0x40 | 0x60 => bank_no + 1,
            _ => bank_no,
        };

        proof {
            let u = self.bank_no_upper;
            let l = self.bank_no_lower;
            assert(u <= 3 && l <= 0x1F ==> (u << 5 | l) <= 0x7F) by (bit_vector);
        }
        let mask = #[verifier::truncate] ((self.num_rom_banks - 1) as u8);
        let r = bank_no & mask;
        proof {
            let b = bank_no;
            let m = mask;
            assert(b & m <= m) by (bit_vector);
        }
        r
    }

    /// The effective external RAM bank selected by the banking latches.
    pub fn ram_bank_no(&self) -> (bank: u8)
        ensures
            bank == ram_bank_spec(self.mode, self.bank_no_upper),
    {
        if self.mode {
            self.bank_no_upper
        } else {
            0
        }
    }

    /// The color compatibility flag from the header.
    pub fn get_cgb_mode(&self) -> (r: u8)
        ensures
            r == self.cgb_flg,
    {
        self.cgb_flg
    }

    /// Replaces the external RAM contents, as a save-file loader does.
    pub fn set_ram(&mut self, data: Vec<u8>)
        ensures
            (*final(self)) == (Cartridge { ram: data, ..(*old(self)) }),
    {
        self.ram = data;
    }

    /// The external RAM contents, as a save-file writer reads them.
    pub fn ram_contents(&self) -> (r: &Vec<u8>)
        ensures
            r == self.ram,
    {
        &self.ram
    }

    /// The index into the external RAM region that a bus address in the RAM
    /// window selects under the current banking latches.
    pub open spec fn ram_index_spec(self, addr: u16) -> int {
        (addr & 0x1FFF) + 8192 * ram_bank_spec(self.mode, self.bank_no_upper)
    }

    /// A write into the cartridge's address windows.  The four low windows
    /// set the banking latches; the RAM window stores through the selected
    /// RAM bank when the enable latch is set and the address falls inside
    /// the region, and is dropped otherwise.
    pub fn write(&mut self, addr: u16, val: u8)
        requires
            old(self).inv(),
        ensures
            final(self).inv(),
            final(self).rom@ == old(self).rom@,
            final(self).num_rom_banks == old(self).num_rom_banks,
            final(self).mbc_type == old(self).mbc_type,
            final(self).cgb_flg == old(self).cgb_flg,
            final(self).ram_enable == if addr < 0x2000 {
                val & 0x0F == 0x0A
            } else {
                old(self).ram_enable
            },
            final(self).bank_no_lower == if 0x2000 <= addr < 0x4000 {
                val & 0x1F
            } else {
                old(self).bank_no_lower
            },
            final(self).bank_no_upper == if 0x4000 <= addr < 0x6000 {
                val & 0x03
            } else {
                old(self).bank_no_upper
            },
            final(self).mode == if 0x6000 <= addr < 0x8000 {
                val & 0x01 > 0
            } else {
                old(self).mode
            },
            final(self).ram@ == if 0xA000 <= addr < 0xC000 && old(self).ram_enable && old(
                self,
            ).ram_index_spec(addr) < old(self).ram@.len() {
                old(self).ram@.update(old(self).ram_index_spec(addr), val)
            } else {
                old(self).ram@
            },
    {
        match addr {
            0x0000..=0x1FFF => self.ram_enable = val & 0x0F == 0x0A,
            0x2000..=0x3FFF => {
                self.bank_no_lower = val & 0x1F;
                proof {
                    assert(val & 0x1F <= 0x1F) by (bit_vector);
                }
            },
            0x4000..=0x5FFF => {
                self.bank_no_upper = val & 0x03;
                proof {
                    assert(val & 0x03 <= 0x03) by (bit_vector);
                }
            },
            0x6000..=0x7FFF => self.mode = val & 0x01 > 0,
            0xA000..=0xBFFF => {
                if !self.ram_enable {
                    return ;
                }
                let offset = 8192 * (self.ram_bank_no() as usize);
                let idx = ((addr & 0x1FFF) as usize) + offset;
                proof {
                    assert(addr & 0x1FFF < 0x2000) by (bit_vector);
                }
                if idx < self.ram.len() {
                    self.ram[idx] = val;
                }
            },
            _ => (),
        }
    }

    /// What a read returns, as a function of the cartridge state: the fixed
    /// bank below 0x4000, the switchable bank below 0x8000, and the RAM
    /// window at 0xA000-0xBFFF, which reads as 0xFF while RAM is disabled or
    /// outside the region.  Any other address reads as 0xFF.
    pub open spec fn read_spec(self, addr: u16) -> u8 {
        if addr < 0x4000 {
            self.rom@[addr as int]
        } else if addr < 0x8000 {
            self.rom@[(addr & 0x3FFF) + 16384 * rom_bank_spec(
                self.mode,
                self.bank_no_lower,
                self.bank_no_upper,
                self.num_rom_banks,
            )]
        } else if 0xA000 <= addr < 0xC000 {
            if self.ram_enable && self.ram_index_spec(addr) < self.ram@.len() {
                self.ram@[self.ram_index_spec(addr)]
            } else {
                0xFF
            }
        } else {
            0xFF
        }
    }

    /// A read from the cartridge's address windows.
    pub fn read(&self, addr: u16) -> (r: u8)
        requires
            self.inv(),
        ensures
            r == self.read_spec(addr),
    {
        match addr {
            0x0000..=0x3FFF => self.rom[addr as usize],
            0x4000..=0x7FFF => {
                let bank = self.rom_bank_no();
                let offset = 16384 * (bank as usize);
                let idx = ((addr & 0x3FFF) as usize) + offset;
                proof {
                    assert(addr & 0x3FFF < 0x4000) by (bit_vector);
                }
                self.rom[idx]
            },
            0xA000..=0xBFFF => {
                if !self.ram_enable {
                    return 0xFF;
                }
                let offset = 8192 * (self.ram_bank_no() as usize);
                let idx = ((addr & 0x1FFF) as usize) + offset;
                if idx < self.ram.len() {
                    self.ram[idx]
                } else {
                    0xFF
                }
            },
            _ => 0xFF,
        }
    }

    /// The cartridge is not clocked: advancing it changes nothing.
    pub fn update(&mut self, tick: u8)
        ensures
            (*final(self)) == (*old(self)),
    {
    }
}

/// Requesting logical bank 0 always resolves to physical bank 1: with both
/// bank-select latches zero (or the lower latch zero in banking mode) the
/// effective ROM bank is 1, for every defined bank count.
pub proof fn lemma_bank_zero_resolves_to_one(c: Cartridge)
    requires
        c.inv(),
        c.bank_no_lower == 0,
        c.mode || c.bank_no_upper == 0,
    ensures
        rom_bank_spec(c.mode, c.bank_no_lower, c.bank_no_upper, c.num_rom_banks) == 1,
{
    assert((0u8 << 5 | 0u8) == 0u8) by (bit_vector);
    let n = c.num_rom_banks;
    assert((n == 2 || n == 4 || n == 8 || n == 16 || n == 32 || n == 64 || n == 128 || n == 256
        || n == 512) ==> 1u8 & (#[verifier::truncate] ((n - 1) as u8)) == 1u8) by (bit_vector);
}

/// Masking with the bank count takes the requested bank modulo the count:
/// any remapped bank at or past the cartridge's bank count wraps around.
pub proof fn lemma_bank_select_wraps(c: Cartridge)
    requires
        c.inv(),
    ensures
        rom_bank_spec(c.mode, c.bank_no_lower, c.bank_no_upper, c.num_rom_banks) as int
            == remapped_bank(requested_bank(c.mode, c.bank_no_lower, c.bank_no_upper)) as int
            % c.num_rom_banks as int,
{
    let b = remapped_bank(requested_bank(c.mode, c.bank_no_lower, c.bank_no_upper));
    let n = c.num_rom_banks;
    assert((n == 2 || n == 4 || n == 8 || n == 16 || n == 32 || n == 64 || n == 128 || n == 256
        || n == 512) ==> (b & (#[verifier::truncate] ((n - 1) as u8))) as u16 == (b as u16) % n)
        by (bit_vector);
}

} // verus!
