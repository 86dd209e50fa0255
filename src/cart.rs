//! Cartridge: ROM header, MBC1/MBC3/MBC5 bank switching and battery-backed RAM.

use vstd::prelude::*;
use vstd::string::*;
use vstd::arithmetic::power2::pow2;
use crate::common::{lemma_low_mask, Byte, Word};
use crate::ram::filled;

verus! {

/// Offset of the title in the ROM header.
pub const HEADER_TITLE_START: usize = 0x134;
/// Offset of the last title byte.
pub const HEADER_TITLE_END: usize = 0x143;
/// Offset of the cartridge type.
pub const HEADER_CART_TYPE: usize = 0x147;
/// Offset of the ROM size code.
pub const HEADER_ROM_SIZE: usize = 0x148;
/// Offset of the RAM size code.
pub const HEADER_RAM_SIZE: usize = 0x149;
/// Offset of the licensee code.
pub const HEADER_LIC_CODE: usize = 0x14B;
/// Offset of the version number.
pub const HEADER_VERSION: usize = 0x14C;
/// Offset of the header checksum.
pub const HEADER_CHECKSUM: usize = 0x14D;

/// Relies on String::push: the character is appended at the end.
#[verifier::external_body]
fn push_char(s: &mut String, c: char)
    ensures
        final(s)@ == old(s)@.push(c),
{
    s.push(c)
}

/// ROM header information.
#[derive(Debug, Clone)]
pub struct RomHeader {
    /// Game title (up to 16 characters)
    pub title: String,
    /// Cartridge type (MBC type)
    pub cart_type: Byte,
    /// ROM size code
    pub rom_size: Byte,
    /// RAM size code
    pub ram_size: Byte,
    /// License code
    pub lic_code: Byte,
    /// Version number
    pub version: Byte,
    /// Header checksum
    pub checksum: Byte,
}

/// Byte `k` of the title field.
pub open spec fn title_byte(rom: Seq<u8>, k: int) -> u8 {
    rom[HEADER_TITLE_START + k]
}

/// Number of title bytes before the first zero, counting from byte `i` of the title field.
pub open spec fn title_len_from(rom: Seq<u8>, i: int) -> int
    decreases 16 - i,
{
    if i >= 16 || rom[HEADER_TITLE_START + i] == 0 {
        i
    } else {
        title_len_from(rom, i + 1)
    }
}

/// The title: the bytes of 0x134-0x143 before the first zero, one character each.
pub open spec fn title_of(rom: Seq<u8>) -> Seq<char> {
    Seq::new((title_len_from(rom, 0)) as nat, |i: int| rom[HEADER_TITLE_START + i] as char)
}

/// The header checksum: `acc = acc - byte - 1` (mod 256) over bytes 0x134..=0x14C, from the
/// first `n` of them.
pub open spec fn checksum_prefix(rom: Seq<u8>, n: int) -> u8
    decreases n,
{
    if n <= 0 {
        0
    } else {
        checksum_prefix(rom, n - 1).wrapping_sub(rom[0x134 + n - 1]).wrapping_sub(1)
    }
}

/// RAM size in bytes for a RAM size code.
pub open spec fn ram_size_of(code: u8) -> nat {
    if code == 1 {
        2048
    } else if code == 2 {
        8192
    } else if code == 3 {
        32768
    } else if code == 4 {
        131072
    } else if code == 5 {
        65536
    } else {
        0
    }
}

proof fn lemma_title_len(rom: Seq<u8>, i: int)
    requires
        0 <= i <= 16,
    ensures
        i <= title_len_from(rom, i) <= 16,
        forall|k: int| i <= k < title_len_from(rom, i) ==> #[trigger] title_byte(rom, k) != 0,
        title_len_from(rom, i) < 16 ==> rom[HEADER_TITLE_START + title_len_from(rom, i)] == 0,
    decreases 16 - i,
{
    if i < 16 && rom[HEADER_TITLE_START + i] != 0 {
        lemma_title_len(rom, i + 1);
    }
}

/// The header block 0x134..=0x14D: the title padded with zeros to 16 bytes, then the
/// fields at their offsets; the bytes that the header does not keep (0x144-0x146 and
/// 0x14A) are zero.
pub open spec fn header_bytes(h: RomHeader) -> Seq<u8> {
    Seq::new(
        26,
        |i: int|
            if i < 16 {
                if i < h.title@.len() {
                    h.title@[i] as u8
                } else {
                    0
                }
            } else if i == 0x13 {
                h.cart_type
            } else if i == 0x14 {
                h.rom_size
            } else if i == 0x15 {
                h.ram_size
            } else if i == 0x17 {
                h.lic_code
            } else if i == 0x18 {
                h.version
            } else if i == 0x19 {
                h.checksum
            } else {
                0
            },
    )
}

/// What `RomHeader::parse` reads from a ROM image of at least 0x150 bytes.
pub open spec fn parsed_from(h: RomHeader, rom: Seq<u8>) -> bool {
    &&& h.title@ == title_of(rom)
    &&& h.cart_type == rom[HEADER_CART_TYPE as int]
    &&& h.rom_size == rom[HEADER_ROM_SIZE as int]
    &&& h.ram_size == rom[HEADER_RAM_SIZE as int]
    &&& h.lic_code == rom[HEADER_LIC_CODE as int]
    &&& h.version == rom[HEADER_VERSION as int]
    &&& h.checksum == rom[HEADER_CHECKSUM as int]
}

/// A legally formatted header: the title is a run of non-zero bytes padded with zeros,
/// and the bytes that the header does not keep are zero.
pub open spec fn legal_header(rom: Seq<u8>) -> bool {
    &&& rom.len() >= 0x150
    &&& forall|k: int| title_len_from(rom, 0) <= k < 16 ==> #[trigger] title_byte(rom, k) == 0
    &&& rom[0x144] == 0 && rom[0x145] == 0 && rom[0x146] == 0 && rom[0x14A] == 0
}

/// Parsing a legally formatted header and writing it out again gives back the header
/// bytes 0x134..=0x14D unchanged.
pub proof fn lemma_header_round_trip(rom: Seq<u8>, h: RomHeader)
    requires
        legal_header(rom),
        parsed_from(h, rom),
    ensures
        h.title@.len() <= 16,
        forall|i: int| 0 <= i < h.title@.len() ==> (h.title@[i] as u32) < 256,
        header_bytes(h) == rom.subrange(0x134, 0x14E),
{
    lemma_title_len(rom, 0);
    assert forall|i: int| 0 <= i < 26 implies header_bytes(h)[i] == rom.subrange(0x134, 0x14E)[i] by {
        if i < 16 && i >= title_len_from(rom, 0) {
            assert(title_byte(rom, i) == 0);
        }
    }
    assert(header_bytes(h) =~= rom.subrange(0x134, 0x14E));
}

impl RomHeader {
    /// Parse the header of a ROM image; `None` when the image is shorter than 0x150 bytes.
    pub fn parse(rom_data: &[Byte]) -> (r: Option<Self>)
        ensures
            rom_data@.len() < 0x150 <==> r.is_none(),
            r matches Some(h) ==> parsed_from(h, rom_data@),
    {
        if rom_data.len() < 0x150 {
            return None;
        }
        let mut title = String::new();
        let mut i: usize = 0;
        proof {
            lemma_title_len(rom_data@, 0);
        }
        while i < 16 && rom_data[HEADER_TITLE_START + i] != 0
            invariant
                rom_data@.len() >= 0x150,
                0 <= i <= title_len_from(rom_data@, 0) <= 16,
                forall|k: int| 0 <= k < title_len_from(rom_data@, 0) ==> #[trigger] title_byte(rom_data@, k) != 0,
                title_len_from(rom_data@, 0) < 16 ==> rom_data@[HEADER_TITLE_START + title_len_from(rom_data@, 0)] == 0,
                title@ == Seq::new(i as nat, |k: int| rom_data@[HEADER_TITLE_START + k] as char),
            decreases 16 - i,
        {
            push_char(&mut title, rom_data[HEADER_TITLE_START + i] as char);
            i = i + 1;
            proof {
                assert(title@ =~= Seq::new(i as nat, |k: int| rom_data@[HEADER_TITLE_START + k] as char));
            }
        }
        proof {
            if i < 16 {
                assert(title_byte(rom_data@, i as int) == 0);
            }
            assert(title@ =~= title_of(rom_data@));
        }
        Some(RomHeader {
            title,
            cart_type: rom_data[HEADER_CART_TYPE],
            rom_size: rom_data[HEADER_ROM_SIZE],
            ram_size: rom_data[HEADER_RAM_SIZE],
            lic_code: rom_data[HEADER_LIC_CODE],
            version: rom_data[HEADER_VERSION],
            checksum: rom_data[HEADER_CHECKSUM],
        })
    }

    /// ROM size in bytes: 32 KiB shifted left by the size code (codes up to 16, whose
    /// sizes fit a 32-bit `usize`).
    pub fn rom_size_bytes(&self) -> (r: usize)
        requires
            self.rom_size <= 16,
        ensures
            r == 32768 * pow2(self.rom_size as nat),
    {
        let mut r: usize = 32768;
        let mut i: u8 = 0;
        proof {
            vstd::arithmetic::power2::lemma2_to64();
        }
        while i < self.rom_size
            invariant
                i <= self.rom_size <= 16,
                r == 32768 * pow2(i as nat),
            decreases self.rom_size - i,
        {
            proof {
                vstd::arithmetic::power2::lemma_pow2_unfold((i + 1) as nat);
                vstd::arithmetic::power2::lemma_pow2_strictly_increases(i as nat, 16);
                vstd::arithmetic::power2::lemma2_to64();
            }
            r = r * 2;
            i = i + 1;
        }
        r
    }

    /// RAM size in bytes for the header's RAM size code.
    pub fn ram_size_bytes(&self) -> (r: usize)
        ensures
            r == ram_size_of(self.ram_size),
    {
        match self.ram_size {
            1 => 2048,
            2 => 8192,
            3 => 32768,
            4 => 131072,
            5 => 65536,
            _ => 0,
        }
    }

    /// Name of the cartridge type.
    pub fn cart_type_name(&self) -> (r: &'static str)
        ensures
            self.cart_type == 0x00 ==> r@ == "ROM ONLY"@,
            self.cart_type == 0x01 ==> r@ == "MBC1"@,
            self.cart_type == 0x03 ==> r@ == "MBC1+RAM+BATTERY"@,
            self.cart_type == 0x13 ==> r@ == "MBC3+RAM+BATTERY"@,
            self.cart_type == 0x1B ==> r@ == "MBC5+RAM+BATTERY"@,
    {
        match self.cart_type {
            0x00 => "ROM ONLY",
            0x01 => "MBC1",
            0x02 => "MBC1+RAM",
            0x03 => "MBC1+RAM+BATTERY",
            0x05 => "MBC2",
            0x06 => "MBC2+BATTERY",
            0x08 => "ROM+RAM",
            0x09 => "ROM+RAM+BATTERY",
            0x0F => "MBC3+TIMER+BATTERY",
            0x10 => "MBC3+TIMER+RAM+BATTERY",
            0x11 => "MBC3",
            0x12 => "MBC3+RAM",
            0x13 => "MBC3+RAM+BATTERY",
            0x19 => "MBC5",
            0x1A => "MBC5+RAM",
            0x1B => "MBC5+RAM+BATTERY",
            _ => "UNKNOWN",
        }
    }

    pub open spec fn has_battery_spec(&self) -> bool {
        self.cart_type == 0x03 || self.cart_type == 0x06 || self.cart_type == 0x09
            || self.cart_type == 0x0F || self.cart_type == 0x10 || self.cart_type == 0x13
            || self.cart_type == 0x1B
    }

    /// Whether the cartridge type declares battery backup.
    pub fn has_battery(&self) -> (r: bool)
        ensures
            r == self.has_battery_spec(),
    {
        matches!(self.cart_type, 0x03 | 0x06 | 0x09 | 0x0F | 0x10 | 0x13 | 0x1B)
    }

    /// Whether the cartridge type declares RAM.
    pub fn has_ram(&self) -> (r: bool)
        ensures
            r == (self.cart_type == 0x02 || self.cart_type == 0x03 || self.cart_type == 0x08
                || self.cart_type == 0x09 || self.cart_type == 0x10 || self.cart_type == 0x12
                || self.cart_type == 0x13 || self.cart_type == 0x1A || self.cart_type == 0x1B),
    {
        matches!(self.cart_type, 0x02 | 0x03 | 0x08 | 0x09 | 0x10 | 0x12 | 0x13 | 0x1A | 0x1B)
    }

    /// The header block 0x134..=0x14D as stored in a ROM image (see `header_bytes`).
    pub fn to_bytes(&self) -> (r: Vec<Byte>)
        requires
            self.title@.len() <= 16,
            forall|i: int| 0 <= i < self.title@.len() ==> (self.title@[i] as u32) < 256,
        ensures
            r@ == header_bytes(*self),
    {
        let mut r: Vec<Byte> = Vec::new();
        let n = self.title.as_str().unicode_len();
        let mut i: usize = 0;
        while i < 16
            invariant
                n == self.title@.len() <= 16,
                i <= 16,
                r@.len() == i,
                forall|k: int| 0 <= k < i ==> r@[k] == if k < self.title@.len() {
                    self.title@[k] as u8
                } else {
                    0
                },
            decreases 16 - i,
        {
            if i < n {
                let c = self.title.as_str().get_char(i);
                r.push(c as u8);
            } else {
                r.push(0);
            }
            i = i + 1;
        }
        r.push(0);
        r.push(0);
        r.push(0);
        r.push(self.cart_type);
        r.push(self.rom_size);
        r.push(self.ram_size);
        r.push(0);
        r.push(self.lic_code);
        r.push(self.version);
        r.push(self.checksum);
        proof {
            assert(r@ =~= header_bytes(*self));
        }
        r
    }
}

/// Cartridge: ROM, parsed header, MBC state and cartridge RAM.
#[derive(Debug)]
pub struct Cartridge {
    /// ROM file path
    pub filename: String,
    /// ROM data
    pub rom: Vec<Byte>,
    /// Parsed ROM header
    pub header: RomHeader,
    /// RAM enabled latch
    pub ram_enabled: bool,
    /// ROM bank register (low bits)
    pub rom_bank: u8,
    /// RAM bank / upper ROM bank register
    pub ram_bank: u8,
    /// MBC1 banking mode (0 = simple, 1 = advanced)
    pub banking_mode: u8,
    /// Cartridge RAM
    pub ram: Vec<Byte>,
    /// Battery backup flag
    pub battery: bool,
    /// RAM written since the last save
    pub need_save: bool,
}

/// The checksum fold over bytes 0x134..=0x14C of a ROM image.
pub open spec fn checksum_spec(rom: Seq<u8>) -> u8 {
    checksum_prefix(rom, 0x14D - 0x134)
}

impl Cartridge {
    pub open spec fn wf(&self) -> bool {
        &&& self.ram@.len() == ram_size_of(self.header.ram_size)
        &&& self.banking_mode <= 1
        &&& self.ram_bank < 16
    }

    pub open spec fn mbc1(&self) -> bool {
        0x01 <= self.header.cart_type <= 0x03
    }

    pub open spec fn mbc3(&self) -> bool {
        0x0F <= self.header.cart_type <= 0x13
    }

    pub open spec fn mbc5(&self) -> bool {
        0x19 <= self.header.cart_type <= 0x1E
    }

    /// Number of 16 KiB ROM banks (at least one).
    pub open spec fn rom_banks(&self) -> nat {
        if self.rom@.len() / 0x4000 >= 1 {
            (self.rom@.len() / 0x4000) as nat
        } else {
            1
        }
    }

    /// Number of 8 KiB RAM banks (at least one).
    pub open spec fn ram_banks(&self) -> nat {
        if self.ram@.len() / 0x2000 >= 1 {
            (self.ram@.len() / 0x2000) as nat
        } else {
            1
        }
    }

    /// MBC1 bank mapped at 0x0000-0x3FFF.
    pub open spec fn rom0_bank(&self) -> nat {
        if self.banking_mode == 1 {
            (((self.ram_bank % 4) as nat * 32) % self.rom_banks()) as nat
        } else {
            0
        }
    }

    /// MBC1 bank mapped at 0x4000-0x7FFF: upper bits from the RAM-bank register and lower
    /// bits from the ROM-bank register (in both banking modes), a zero low part counts as
    /// one, never bank 0 when there is more than one bank.
    pub open spec fn romx_bank(&self) -> nat {
        let low = (self.rom_bank % 32) as nat;
        let up: nat = (self.ram_bank % 4) as nat * 32;
        let b: nat = if low == 0 { up + low + 1 } else { up + low };
        let m = b % self.rom_banks();
        if m == 0 && self.rom_banks() > 1 {
            1
        } else {
            m
        }
    }

    /// Bank mapped at 0x4000-0x7FFF.
    pub open spec fn upper_bank(&self) -> nat {
        if self.mbc1() {
            self.romx_bank()
        } else {
            (self.rom_bank as nat % self.rom_banks()) as nat
        }
    }

    /// RAM bank for 0xA000-0xBFFF.
    pub open spec fn ram_bank_sel(&self) -> nat {
        if self.mbc1() && self.banking_mode == 0 {
            0
        } else {
            (self.ram_bank as nat % self.ram_banks()) as nat
        }
    }

    /// ROM byte at an offset, 0xFF past the end.
    pub open spec fn rom_at(&self, i: int) -> u8 {
        if 0 <= i < self.rom@.len() {
            self.rom@[i]
        } else {
            0xFF
        }
    }

    /// Index into cartridge RAM of an address of 0xA000-0xBFFF.
    pub open spec fn ram_index(&self, address: u16) -> int {
        self.ram_bank_sel() * 0x2000 + address - 0xA000
    }

    /// What a read of `address` returns.
    pub open spec fn read_spec(&self, address: u16) -> u8 {
        if address <= 0x3FFF {
            self.rom_at((if self.mbc1() { self.rom0_bank() } else { 0 }) * 0x4000 + address)
        } else if address <= 0x7FFF {
            self.rom_at(self.upper_bank() * 0x4000 + address - 0x4000)
        } else if 0xA000 <= address <= 0xBFFF {
            if !self.ram_enabled || self.ram@.len() == 0 || self.ram_index(address) >= self.ram@.len() {
                0xFF
            } else {
                self.ram@[self.ram_index(address)]
            }
        } else {
            0xFF
        }
    }

    /// Build a cartridge from a ROM image; `None` when the header cannot be parsed.
    /// Cartridge RAM is zeroed with the size that the header declares.
    pub fn new(filename: String, rom: Vec<Byte>) -> (r: Option<Self>)
        ensures
            rom@.len() < 0x150 <==> r.is_none(),
            r matches Some(c) ==> {
                &&& c.wf()
                &&& c.rom@ == rom@
                &&& parsed_from(c.header, rom@)
                &&& !c.ram_enabled && c.rom_bank == 1 && c.ram_bank == 0 && c.banking_mode == 0
                &&& c.battery == c.header.has_battery_spec()
                &&& !c.need_save
                &&& forall|i: int| 0 <= i < c.ram@.len() ==> c.ram@[i] == 0
            },
    {
        let header = match RomHeader::parse(rom.as_slice()) {
            Some(h) => h,
            None => return None,
        };
        let ram_size = header.ram_size_bytes();
        let battery = header.has_battery();
        Some(Cartridge {
            filename,
            rom,
            header,
            ram_enabled: false,
            rom_bank: 1,
            ram_bank: 0,
            banking_mode: 0,
            ram: filled(ram_size, 0u8),
            battery,
            need_save: false,
        })
    }

    /// Number of 16 KiB ROM banks.
    pub fn rom_bank_count(&self) -> (r: usize)
        ensures
            r == self.rom_banks(),
    {
        let n = self.rom.len() / 0x4000;
        if n >= 1 {
            n
        } else {
            1
        }
    }

    /// Number of 8 KiB RAM banks.
    pub fn ram_bank_count(&self) -> (r: usize)
        ensures
            r == self.ram_banks(),
    {
        let n = self.ram.len() / 0x2000;
        if n >= 1 {
            n
        } else {
            1
        }
    }

    /// MBC1 bank for 0x0000-0x3FFF.
    pub fn mbc1_rom0_bank(&self) -> (r: usize)
        requires
            self.wf(),
        ensures
            r == self.rom0_bank(),
            r < 128,
    {
        if self.banking_mode == 1 {
            proof {
                lemma_low_mask(self.ram_bank);
            }
            let bank = (self.ram_bank & 0x03) as usize * 32;
            let count = self.rom_bank_count();
            assert(bank % count <= bank) by (nonlinear_arith)
                requires
                    count > 0,
            ;
            bank % count
        } else {
            0
        }
    }

    /// MBC1 bank for 0x4000-0x7FFF.
    pub fn mbc1_romx_bank(&self) -> (r: usize)
        requires
            self.wf(),
        ensures
            r == self.romx_bank(),
            r < 129,
    {
        proof {
            lemma_low_mask(self.rom_bank);
            lemma_low_mask(self.ram_bank);
        }
        let mut bank = (self.rom_bank & 0x1F) as usize + (self.ram_bank & 0x03) as usize * 32;
        if self.rom_bank & 0x1F == 0 {
            bank = bank + 1;
        }
        let bank_count = self.rom_bank_count();
        assert(bank % bank_count <= bank) by (nonlinear_arith)
            requires
                bank_count > 0,
        ;
        bank = bank % bank_count;
        if bank == 0 && bank_count > 1 {
            1
        } else {
            bank
        }
    }

    fn upper_rom_bank(&self) -> (r: usize)
        requires
            self.wf(),
        ensures
            r == self.upper_bank(),
            r < 256,
    {
        if self.is_mbc1() {
            self.mbc1_romx_bank()
        } else {
            let count = self.rom_bank_count();
            let b = self.rom_bank as usize;
            assert(b % count <= b) by (nonlinear_arith)
                requires
                    count > 0,
            ;
            b % count
        }
    }

    fn ram_bank_select(&self) -> (r: usize)
        requires
            self.wf(),
        ensures
            r == self.ram_bank_sel(),
            r < 16,
    {
        if self.is_mbc1() && self.banking_mode == 0 {
            0
        } else {
            let count = self.ram_bank_count();
            let b = self.ram_bank as usize;
            assert(b % count <= b) by (nonlinear_arith)
                requires
                    count > 0,
            ;
            b % count
        }
    }

    fn rom_byte(&self, i: usize) -> (r: Byte)
        ensures
            r == self.rom_at(i as int),
    {
        if i < self.rom.len() {
            self.rom[i]
        } else {
            0xFF
        }
    }

    /// Verify the header checksum of a ROM image.
    pub fn validate_checksum(rom_data: &[Byte]) -> (r: bool)
        ensures
            r == (rom_data@.len() >= 0x150 && checksum_spec(rom_data@) == rom_data@[HEADER_CHECKSUM as int]),
    {
        if rom_data.len() < 0x150 {
            return false;
        }
        let checksum = Self::calculate_checksum(rom_data);
        checksum == rom_data[HEADER_CHECKSUM]
    }

    /// Header checksum of a ROM image (0 when it is shorter than 0x14D bytes).
    pub fn calculate_checksum(rom_data: &[Byte]) -> (r: Byte)
        ensures
            rom_data@.len() >= 0x14D ==> r == checksum_spec(rom_data@),
            rom_data@.len() < 0x14D ==> r == 0,
    {
        if rom_data.len() < 0x14D {
            return 0;
        }
        let mut checksum: u8 = 0;
        let mut i: usize = 0x134;
        while i <= 0x14C
            invariant
                rom_data@.len() >= 0x14D,
                0x134 <= i <= 0x14D,
                checksum == checksum_prefix(rom_data@, i - 0x134),
            decreases 0x14D - i,
        {
            checksum = checksum.wrapping_sub(rom_data[i]).wrapping_sub(1);
            i = i + 1;
        }
        checksum
    }

    /// Read from the cartridge: ROM banks at 0x0000-0x7FFF, RAM at 0xA000-0xBFFF.
    pub fn read(&self, address: Word) -> (r: Byte)
        requires
            self.wf(),
        ensures
            r == self.read_spec(address),
    {
        if address <= 0x3FFF {
            let bank = if self.is_mbc1() {
                self.mbc1_rom0_bank()
            } else {
                0
            };
            self.rom_byte(bank * 0x4000 + address as usize)
        } else if address <= 0x7FFF {
            let bank = self.upper_rom_bank();
            self.rom_byte(bank * 0x4000 + (address as usize - 0x4000))
        } else if 0xA000 <= address && address <= 0xBFFF {
            if !self.ram_enabled || self.ram.len() == 0 {
                return 0xFF;
            }
            let bank = self.ram_bank_select();
            let idx = bank * 0x2000 + (address as usize - 0xA000);
            if idx < self.ram.len() {
                self.ram[idx]
            } else {
                0xFF
            }
        } else {
            0xFF
        }
    }

    /// The state after a write of `value` to `address` (see `write`).
    pub open spec fn write_post(old: Cartridge, new: Cartridge, address: u16, value: u8) -> bool {
        &&& new.wf()
        &&& new.rom@ == old.rom@
        &&& new.header == old.header
        &&& new.battery == old.battery
        &&& new.ram_enabled == if address <= 0x1FFF && (old.mbc1() || old.mbc3()
            || old.mbc5()) {
            value % 16 == 0x0A
        } else {
            old.ram_enabled
        }
        &&& new.rom_bank == if 0x2000 <= address <= 0x3FFF && old.mbc1() {
            if value % 32 == 0 { 1 } else { value % 32 }
        } else if 0x2000 <= address <= 0x3FFF && old.mbc3() {
            if value % 128 == 0 { 1 } else { value % 128 }
        } else if 0x2000 <= address <= 0x3FFF && old.mbc5() {
            value
        } else {
            old.rom_bank
        }
        &&& new.ram_bank == if 0x4000 <= address <= 0x5FFF && old.mbc1() {
            value % 4
        } else if 0x4000 <= address <= 0x5FFF && old.mbc3() {
            value % 16
        } else {
            old.ram_bank
        }
        &&& new.banking_mode == if 0x6000 <= address <= 0x7FFF && old.mbc1() {
            value % 2
        } else {
            old.banking_mode
        }
        &&& ({
            let stored = 0xA000 <= address <= 0xBFFF && old.ram_enabled
                && old.ram@.len() > 0 && old.ram_index(address) < old.ram@.len();
            &&& new.ram@ == if stored {
                old.ram@.update(old.ram_index(address), value)
            } else {
                old.ram@
            }
            &&& new.need_save == (old.need_save || stored)
        })
    }

    /// Write to the cartridge: MBC control registers at 0x0000-0x7FFF, RAM at 0xA000-0xBFFF.
    pub fn write(&mut self, address: Word, value: Byte)
        requires
            old(self).wf(),
        ensures
            Cartridge::write_post(*old(self), *final(self), address, value),
    {
        proof {
            lemma_low_mask(value);
        }
        if address <= 0x1FFF {
            if self.is_mbc1() || self.is_mbc3() || self.is_mbc5() {
                self.ram_enabled = (value & 0x0F) == 0x0A;
            }
        } else if address <= 0x3FFF {
            if self.is_mbc1() {
                let mut bank = value & 0x1F;
                if bank == 0 {
                    bank = 1;
                }
                self.rom_bank = bank;
            } else if self.is_mbc3() {
                let mut bank = value & 0x7F;
                if bank == 0 {
                    bank = 1;
                }
                self.rom_bank = bank;
            } else if self.is_mbc5() {
                self.rom_bank = value;
            }
        } else if address <= 0x5FFF {
            if self.is_mbc1() {
                self.ram_bank = value & 0x03;
            } else if self.is_mbc3() {
                self.ram_bank = value & 0x0F;
            }
        } else if address <= 0x7FFF {
            if self.is_mbc1() {
                self.banking_mode = value & 0x01;
            }
        } else if 0xA000 <= address && address <= 0xBFFF {
            if !self.ram_enabled || self.ram.len() == 0 {
                return;
            }
            let bank = self.ram_bank_select();
            let idx = bank * 0x2000 + (address as usize - 0xA000);
            if idx < self.ram.len() {
                self.ram.set(idx, value);
                self.need_save = true;
            }
        }
    }

    /// MBC1 cartridge type (0x01-0x03).
    pub fn is_mbc1(&self) -> (r: bool)
        ensures
            r == self.mbc1(),
    {
        0x01 <= self.header.cart_type && self.header.cart_type <= 0x03
    }

    /// MBC3 cartridge type (0x0F-0x13).
    pub fn is_mbc3(&self) -> (r: bool)
        ensures
            r == self.mbc3(),
    {
        0x0F <= self.header.cart_type && self.header.cart_type <= 0x13
    }

    /// MBC5 cartridge type (0x19-0x1E).
    pub fn is_mbc5(&self) -> (r: bool)
        ensures
            r == self.mbc5(),
    {
        0x19 <= self.header.cart_type && self.header.cart_type <= 0x1E
    }

    /// Fill cartridge RAM from a battery save; bytes past the RAM size are ignored and a
    /// short save leaves the rest of RAM as it was.
    pub fn load_battery_save(&mut self, data: &[Byte])
        requires
            old(self).wf(),
        ensures
            final(self).wf(),
            final(self).rom@ == old(self).rom@,
            final(self).header == old(self).header,
            final(self).ram@.len() == old(self).ram@.len(),
            forall|i: int| 0 <= i < old(self).ram@.len() ==> final(self).ram@[i] == if i < data@.len() {
                data@[i]
            } else {
                old(self).ram@[i]
            },
            final(self).ram_enabled == old(self).ram_enabled,
            final(self).rom_bank == old(self).rom_bank,
            final(self).ram_bank == old(self).ram_bank,
            final(self).banking_mode == old(self).banking_mode,
            final(self).battery == old(self).battery,
            final(self).need_save == old(self).need_save,
    {
        let mut i: usize = 0;
        while i < self.ram.len() && i < data.len()
            invariant
                self.wf(),
                self.rom@ == old(self).rom@,
                self.header == old(self).header,
                self.ram@.len() == old(self).ram@.len(),
                i <= self.ram@.len() && i <= data@.len(),
                forall|k: int| 0 <= k < old(self).ram@.len() ==> self.ram@[k] == if k < i {
                    data@[k]
                } else {
                    old(self).ram@[k]
                },
                self.ram_enabled == old(self).ram_enabled,
                self.rom_bank == old(self).rom_bank,
                self.ram_bank == old(self).ram_bank,
                self.banking_mode == old(self).banking_mode,
                self.battery == old(self).battery,
                self.need_save == old(self).need_save,
            decreases self.ram@.len() - i,
        {
            self.ram.set(i, data[i]);
            i = i + 1;
        }
    }

    /// Whether a battery save is due: a battery is present and RAM changed since the last save.
    pub fn needs_save(&self) -> (r: bool)
        ensures
            r == (self.battery && self.need_save),
    {
        self.battery && self.need_save
    }

    /// Record that the RAM contents were saved.
    pub fn mark_saved(&mut self)
        ensures
            final(self).need_save == false,
            final(self).rom@ == old(self).rom@ && final(self).ram@ == old(self).ram@,
            final(self).header == old(self).header,
            final(self).ram_enabled == old(self).ram_enabled,
            final(self).rom_bank == old(self).rom_bank,
            final(self).ram_bank == old(self).ram_bank,
            final(self).banking_mode == old(self).banking_mode,
            final(self).battery == old(self).battery,
    {
        self.need_save = false;
    }
}

/// A write of any value to the MBC1 ROM-bank register leaves a non-zero bank mapped at
/// 0x4000-0x7FFF whenever the ROM has more than one bank.
pub proof fn lemma_mbc1_bank_never_zero(c: Cartridge, address: u16, value: u8, c2: Cartridge)
    requires
        c.wf(),
        c.mbc1(),
        0x2000 <= address <= 0x3FFF,
        Cartridge::write_post(c, c2, address, value),
        c.rom_banks() > 1,
    ensures
        c2.romx_bank() != 0,
        c2.rom_bank % 32 != 0,
{
}

} // verus!
