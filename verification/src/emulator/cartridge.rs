use vstd::prelude::*;
use vstd::string::StringExecFns;
use crate::emulator::text::decimal;
use crate::emulator::text::spec_decimal;
use crate::emulator::text::spec_text;
use crate::emulator::text::text;

verus! {

/// The first byte of the range the header checksum covers.
pub const CHECKSUM_START: usize = 0x134;

/// The address of the header checksum, one past the range it covers.
pub const CHECKSUM_ADDR: usize = 0x14D;

/// The smallest ROM image: two banks of 16 KiB.
pub const MIN_ROM_SIZE: usize = 0x8000;

/// The largest ROM image: 8 MiB.
pub const MAX_ROM_SIZE: usize = 0x800000;

/// The size of one bank of external RAM.
pub const RAM_BANK_SIZE: usize = 0x2000;

/// The fields of the cartridge header at 0x134 to 0x14F.
#[derive(Debug, Clone, Copy)]
pub struct RomHeader {
    pub title: [u8; 16],
    pub new_license_code: [u8; 2],
    pub sgb_flag: u8,
    pub cartridge_type: u8,
    pub rom_size: u8,
    pub ram_size: u8,
    pub destination_code: u8,
    pub old_license_code: u8,
    pub mask_rom_version_number: u8,
    pub header_checksum: u8,
    pub global_checksum: u16,
}

/// Why a ROM image was not accepted.
#[derive(Debug, PartialEq, Eq, Structural, Clone, Copy)]
pub enum CartridgeError {
    /// The image is shorter than two banks.
    RomTooSmall,
    /// The image is longer than 8 MiB.
    RomTooLarge,
    /// The header checksum does not match the header.
    BadChecksum,
}

/// A cartridge: the ROM image, the MBC1 registers and the external RAM.
pub struct Cartridge {
    pub filename: String,
    pub rom_header: RomHeader,
    pub rom_size: usize,
    /// The ROM image.
    pub rom: Vec<u8>,
    /// The RAM-enable latch.
    pub ram_enabled: bool,
    /// The banking mode is RAM banking.
    pub ram_banking: bool,
    /// The banking-mode register: 0 ROM banking, 1 RAM banking.
    pub banking_mode: u8,
    /// The five-bit ROM bank register, never 0.
    pub rom_bank_value: u8,
    /// The two-bit register that holds the RAM bank or the upper bits of
    /// the ROM bank.
    pub ram_bank_value: u8,
    /// The external RAM, all banks one after the other.
    pub ram: Vec<u8>,
    /// The cartridge type has a battery.
    pub has_battery: bool,
    /// External RAM was written since it was last saved.
    pub need_save: bool,
    /// A switch to RAM banking found unsaved RAM: it is to be saved before
    /// the next instruction.
    pub flush_due: bool,
}

/// The mathematical content of a cartridge.
pub struct CartridgeView {
    pub rom_header: RomHeader,
    pub rom_size: usize,
    pub rom: Seq<u8>,
    pub ram_enabled: bool,
    pub ram_banking: bool,
    pub banking_mode: u8,
    pub rom_bank_value: u8,
    pub ram_bank_value: u8,
    pub ram: Seq<u8>,
    pub has_battery: bool,
    pub need_save: bool,
    pub flush_due: bool,
}

impl View for Cartridge {
    type V = CartridgeView;

    open spec fn view(&self) -> CartridgeView {
        CartridgeView {
            rom_header: self.rom_header,
            rom_size: self.rom_size,
            rom: self.rom@,
            ram_enabled: self.ram_enabled,
            ram_banking: self.ram_banking,
            banking_mode: self.banking_mode,
            rom_bank_value: self.rom_bank_value,
            ram_bank_value: self.ram_bank_value,
            ram: self.ram@,
            has_battery: self.has_battery,
            need_save: self.need_save,
            flush_due: self.flush_due,
        }
    }
}

/// The sum of `-rom[i] - 1` over `start <= i < end`.
pub open spec fn spec_header_sum(rom: Seq<u8>, start: int, end: int) -> int
    decreases end - start,
{
    if end <= start {
        0
    } else {
        spec_header_sum(rom, start, end - 1) - rom[end - 1] - 1
    }
}

/// The checksum of the header bytes 0x134 to 0x14C: their sum of
/// `-rom[i] - 1`, reduced to eight bits.
pub open spec fn spec_header_checksum(rom: Seq<u8>) -> int {
    spec_header_sum(rom, CHECKSUM_START as int, CHECKSUM_ADDR as int) % 0x100
}

/// The header carries its own checksum at 0x14D.
pub open spec fn spec_checksum_valid(rom: Seq<u8>) -> bool {
    spec_header_checksum(rom) == rom[CHECKSUM_ADDR as int]
}

/// The cartridge types with an MBC1.
pub open spec fn spec_is_mbc1(cartridge_type: u8) -> bool {
    cartridge_type == 0x01 || cartridge_type == 0x02 || cartridge_type == 0x03
}

/// The cartridge types with a battery.
pub open spec fn spec_type_has_battery(cartridge_type: u8) -> bool {
    cartridge_type == 0x03 || cartridge_type == 0x06 || cartridge_type == 0x09 || cartridge_type
        == 0x0D || cartridge_type == 0x0F || cartridge_type == 0x10 || cartridge_type == 0x13
        || cartridge_type == 0x17 || cartridge_type == 0x1B || cartridge_type == 0x1E
}

/// The number of 8 KiB banks of external RAM that a RAM-size code stands
/// for.
pub open spec fn spec_ram_banks(ram_size: u8) -> int {
    if ram_size == 0x02 {
        1
    } else if ram_size == 0x03 {
        4
    } else if ram_size == 0x04 {
        16
    } else if ram_size == 0x05 {
        8
    } else {
        0
    }
}

/// The header fields of a ROM image of at least 0x150 bytes.
pub open spec fn spec_parse_header(rom: Seq<u8>) -> RomHeader {
    RomHeader {
        title: [
            rom[0x134],
            rom[0x135],
            rom[0x136],
            rom[0x137],
            rom[0x138],
            rom[0x139],
            rom[0x13A],
            rom[0x13B],
            rom[0x13C],
            rom[0x13D],
            rom[0x13E],
            rom[0x13F],
            rom[0x140],
            rom[0x141],
            rom[0x142],
            rom[0x143],
        ],
        new_license_code: [rom[0x144], rom[0x145]],
        sgb_flag: rom[0x146],
        cartridge_type: rom[0x147],
        rom_size: rom[0x148],
        ram_size: rom[0x149],
        destination_code: rom[0x14A],
        old_license_code: rom[0x14B],
        mask_rom_version_number: rom[0x14C],
        header_checksum: rom[0x14D],
        global_checksum: (rom[0x14E] as int * 0x100 + rom[0x14F] as int) as u16,
    }
}

/// The length of the title without its trailing NUL bytes, among the first
/// `n` bytes of the field.
pub open spec fn spec_title_len(title: Seq<u8>, n: int) -> int
    decreases n,
{
    if n <= 0 {
        0
    } else if title[n - 1] != 0 {
        n
    } else {
        spec_title_len(title, n - 1)
    }
}

/// The title without its trailing NUL bytes.
pub open spec fn spec_title(title: Seq<u8>) -> Seq<u8> {
    title.subrange(0, spec_title_len(title, 16))
}

/// The cartridge as it stands right after its image was accepted: bank 1
/// in the switchable window, RAM disabled and filled with zeros.
pub open spec fn spec_loaded(rom: Seq<u8>) -> CartridgeView {
    let header = spec_parse_header(rom);
    CartridgeView {
        rom_header: header,
        rom_size: rom.len() as usize,
        rom: rom,
        ram_enabled: false,
        ram_banking: false,
        banking_mode: 0,
        rom_bank_value: 1,
        ram_bank_value: 0,
        ram: Seq::new((spec_ram_banks(header.ram_size) * 0x2000) as nat, |i: int| 0u8),
        has_battery: spec_type_has_battery(header.cartridge_type),
        need_save: false,
        flush_due: false,
    }
}

/// The outcome that loading the image `rom` owes.
pub open spec fn spec_load(rom: Seq<u8>) -> Result<CartridgeView, CartridgeError> {
    if rom.len() < MIN_ROM_SIZE {
        Err(CartridgeError::RomTooSmall)
    } else if rom.len() > MAX_ROM_SIZE {
        Err(CartridgeError::RomTooLarge)
    } else if !spec_checksum_valid(rom) {
        Err(CartridgeError::BadChecksum)
    } else {
        Ok(spec_loaded(rom))
    }
}

impl CartridgeView {
    /// The invariant of a loaded cartridge.
    pub open spec fn wf(self) -> bool {
        &&& MIN_ROM_SIZE <= self.rom.len() <= MAX_ROM_SIZE
        &&& self.rom_size == self.rom.len()
        &&& spec_checksum_valid(self.rom)
        &&& self.rom_header.header_checksum == self.rom[CHECKSUM_ADDR as int]
        &&& self.rom_header.cartridge_type == self.rom[0x147]
        &&& self.rom_header.ram_size == self.rom[0x149]
        &&& self.ram.len() == spec_ram_banks(self.rom_header.ram_size) * 0x2000
        &&& 1 <= self.rom_bank_value <= 31
        &&& self.ram_bank_value <= 3
        &&& self.banking_mode <= 1
        &&& self.ram_banking == (self.banking_mode == 1)
        &&& self.has_battery == spec_type_has_battery(self.rom_header.cartridge_type)
    }

    pub open spec fn spec_mbc1(self) -> bool {
        spec_is_mbc1(self.rom_header.cartridge_type)
    }

    /// The ROM bank in the window 0x4000 to 0x7FFF: the five-bit register,
    /// with the two-bit register above it while the mode is ROM banking.
    pub open spec fn spec_rom_bank(self) -> int {
        if self.ram_banking {
            self.rom_bank_value as int
        } else {
            self.ram_bank_value as int * 32 + self.rom_bank_value as int
        }
    }

    /// The RAM bank in the window 0xA000 to 0xBFFF: the two-bit register
    /// while the mode is RAM banking, else bank 0.
    pub open spec fn spec_ram_bank(self) -> int {
        if self.ram_banking {
            self.ram_bank_value as int
        } else {
            0
        }
    }

    /// The byte of the image at `index`; 0xFF past its end.
    pub open spec fn spec_rom_byte(self, index: int) -> u8 {
        if 0 <= index < self.rom.len() {
            self.rom[index]
        } else {
            0xFF
        }
    }

    /// Where in the external RAM the address 0xA000 to 0xBFFF falls.
    pub open spec fn spec_ram_index(self, address: u16) -> int {
        self.spec_ram_bank() * 0x2000 + (address - 0xA000)
    }

    /// The address 0xA000 to 0xBFFF reaches external RAM: the latch is set
    /// and the selected bank exists.
    pub open spec fn spec_ram_accessible(self, address: u16) -> bool {
        self.ram_enabled && self.spec_ram_index(address) < self.ram.len()
    }

    /// What a read at `address` returns.
    pub open spec fn spec_read(self, address: u16) -> u8 {
        if address < 0x4000 {
            self.spec_rom_byte(address as int)
        } else if address < 0x8000 {
            self.spec_rom_byte(self.spec_rom_bank() * 0x4000 + (address - 0x4000))
        } else if 0xA000 <= address < 0xC000 && self.spec_ram_accessible(address) {
            self.ram[self.spec_ram_index(address)]
        } else {
            0xFF
        }
    }

    /// The cartridge after a write of `data` at `address`.
    pub open spec fn spec_write(self, address: u16, data: u8) -> CartridgeView {
        if !self.spec_mbc1() {
            self
        } else if address < 0x2000 {
            CartridgeView { ram_enabled: data % 16 == 0x0A, ..self }
        } else if address < 0x4000 {
            CartridgeView {
                rom_bank_value: if data % 32 == 0 {
                    1
                } else {
                    data % 32
                },
                ..self
            }
        } else if address < 0x6000 {
            CartridgeView { ram_bank_value: data % 4, ..self }
        } else if address < 0x8000 {
            CartridgeView {
                banking_mode: data % 2,
                ram_banking: data % 2 == 1,
                flush_due: self.flush_due || (data % 2 == 1 && self.need_save),
                ..self
            }
        } else if 0xA000 <= address < 0xC000 && self.spec_ram_accessible(address) {
            CartridgeView {
                ram: self.ram.update(self.spec_ram_index(address), data),
                need_save: self.need_save || self.has_battery,
                ..self
            }
        } else {
            self
        }
    }

    /// What the save file is to hold: bank 0 of the external RAM, or
    /// nothing where the cartridge has no RAM.
    pub open spec fn spec_battery_image(self) -> Seq<u8> {
        if self.ram.len() >= RAM_BANK_SIZE {
            self.ram.subrange(0, RAM_BANK_SIZE as int)
        } else {
            Seq::empty()
        }
    }

    /// Whether a save file of these bytes can be taken in.
    pub open spec fn spec_battery_fits(self, data: Seq<u8>) -> bool {
        self.ram.len() >= RAM_BANK_SIZE && data.len() >= RAM_BANK_SIZE
    }

    /// The cartridge after the save file `data` was taken in: its first
    /// 8 KiB replace bank 0.
    pub open spec fn spec_load_battery(self, data: Seq<u8>) -> CartridgeView {
        if self.spec_battery_fits(data) {
            CartridgeView {
                ram: data.subrange(0, RAM_BANK_SIZE as int) + self.ram.subrange(
                    RAM_BANK_SIZE as int,
                    self.ram.len() as int,
                ),
                ..self
            }
        } else {
            self
        }
    }

    /// The cartridge after its RAM was handed out for saving.
    pub open spec fn spec_saved(self) -> CartridgeView {
        CartridgeView { need_save: false, flush_due: false, ..self }
    }
}

/// The name of a cartridge type, for the types that have one.
pub open spec fn spec_cartridge_type_name(code: u8) -> Option<Seq<char>> {
    if code == 0x00 {
        Some("ROM ONLY"@)
    } else if code == 0x01 {
        Some("MBC1"@)
    } else if code == 0x02 {
        Some("MBC1+RAM"@)
    } else if code == 0x03 {
        Some("MBC1+RAM+BATTERY"@)
    } else if code == 0x05 {
        Some("MBC2"@)
    } else if code == 0x06 {
        Some("MBC2+BATTERY"@)
    } else if code == 0x08 {
        Some("ROM+RAM"@)
    } else if code == 0x09 {
        Some("ROM+RAM+BATTERY"@)
    } else if code == 0x0B {
        Some("MMM01"@)
    } else if code == 0x0C {
        Some("MMM01+RAM"@)
    } else if code == 0x0D {
        Some("MMM01+RAM+BATTERY"@)
    } else if code == 0x0F {
        Some("MBC3+TIMER+BATTERY"@)
    } else if code == 0x10 {
        Some("MBC3+TIMER+RAM+BATTERY"@)
    } else if code == 0x11 {
        Some("MBC3"@)
    } else if code == 0x12 {
        Some("MBC3+RAM"@)
    } else if code == 0x13 {
        Some("MBC3+RAM+BATTERY"@)
    } else if code == 0x15 {
        Some("MBC4"@)
    } else if code == 0x16 {
        Some("MBC4+RAM"@)
    } else if code == 0x17 {
        Some("MBC4+RAM+BATTERY"@)
    } else if code == 0x19 {
        Some("MBC5"@)
    } else if code == 0x1A {
        Some("MBC5+RAM"@)
    } else if code == 0x1B {
        Some("MBC5+RAM+BATTERY"@)
    } else if code == 0x1C {
        Some("MBC5+RUMBLE"@)
    } else if code == 0x1D {
        Some("MBC5+RUMBLE+RAM"@)
    } else if code == 0x1E {
        Some("MBC5+RUMBLE+RAM+BATTERY"@)
    } else if code == 0x20 {
        Some("MBC6"@)
    } else if code == 0x22 {
        Some("MBC7+SENSOR+RUMBLE+RAM+BATTERY"@)
    } else if code == 0xFC {
        Some("POCKET CAMERA"@)
    } else if code == 0xFD {
        Some("BANDAI TAMA5"@)
    } else if code == 0xFE {
        Some("HuC3"@)
    } else if code == 0xFF {
        Some("HuC1+RAM+BATTERY"@)
    } else {
        None
    }
}

/// The name of a RAM size code, for the codes that have one.
pub open spec fn spec_ram_size_name(code: u8) -> Option<Seq<char>> {
    if code == 0x00 {
        Some("No RAM"@)
    } else if code == 0x01 {
        Some("Unused"@)
    } else if code == 0x02 {
        Some("8 KiB"@)
    } else if code == 0x03 {
        Some("32 KiB (4 banks of 8 KiB each)"@)
    } else if code == 0x04 {
        Some("128 KiB (16 banks of 8 KiB each)"@)
    } else if code == 0x05 {
        Some("64 KiB (8 banks of 8 KiB each)"@)
    } else {
        None
    }
}

/// The publisher that the two characters of a new licensee code stand
/// for, for the codes that are known.
pub open spec fn spec_license_name(code: [u8; 2]) -> Option<Seq<char>> {
    if code[0] == 0x30 && code[1] == 0x30 {
        Some("None"@)
    } else if code[0] == 0x30 && code[1] == 0x31 {
        Some("Nintendo R&D1"@)
    } else if code[0] == 0x30 && code[1] == 0x38 {
        Some("Capcom"@)
    } else if code[0] == 0x31 && code[1] == 0x33 {
        Some("Electronic Arts"@)
    } else if code[0] == 0x31 && code[1] == 0x38 {
        Some("Hudson Soft"@)
    } else if code[0] == 0x31 && code[1] == 0x39 {
        Some("B-AI"@)
    } else if code[0] == 0x32 && code[1] == 0x30 {
        Some("KSS"@)
    } else if code[0] == 0x32 && code[1] == 0x32 {
        Some("POW"@)
    } else if code[0] == 0x32 && code[1] == 0x34 {
        Some("PCM Complete"@)
    } else if code[0] == 0x32 && code[1] == 0x35 {
        Some("San-X"@)
    } else if code[0] == 0x32 && code[1] == 0x38 {
        Some("Kemco Japan"@)
    } else if code[0] == 0x32 && code[1] == 0x39 {
        Some("Seta"@)
    } else if code[0] == 0x33 && code[1] == 0x30 {
        Some("Viacom"@)
    } else if code[0] == 0x33 && code[1] == 0x31 {
        Some("Nintendo"@)
    } else if code[0] == 0x33 && code[1] == 0x32 {
        Some("Bandai"@)
    } else if code[0] == 0x33 && code[1] == 0x33 {
        Some("Ocean/Acclaim"@)
    } else if code[0] == 0x33 && code[1] == 0x34 {
        Some("Konami"@)
    } else if code[0] == 0x33 && code[1] == 0x35 {
        Some("Hector"@)
    } else if code[0] == 0x33 && code[1] == 0x37 {
        Some("Taito"@)
    } else if code[0] == 0x33 && code[1] == 0x38 {
        Some("Hudson"@)
    } else if code[0] == 0x33 && code[1] == 0x39 {
        Some("Banpresto"@)
    } else if code[0] == 0x34 && code[1] == 0x31 {
        Some("Ubisoft"@)
    } else if code[0] == 0x34 && code[1] == 0x32 {
        Some("Atlus"@)
    } else if code[0] == 0x34 && code[1] == 0x34 {
        Some("Malibu"@)
    } else if code[0] == 0x34 && code[1] == 0x36 {
        Some("Angel"@)
    } else if code[0] == 0x34 && code[1] == 0x37 {
        Some("Bullet-Proof"@)
    } else if code[0] == 0x34 && code[1] == 0x39 {
        Some("Irem"@)
    } else if code[0] == 0x35 && code[1] == 0x30 {
        Some("Absolute"@)
    } else if code[0] == 0x35 && code[1] == 0x31 {
        Some("Acclaim"@)
    } else if code[0] == 0x35 && code[1] == 0x32 {
        Some("Activision"@)
    } else if code[0] == 0x35 && code[1] == 0x33 {
        Some("American Sammy"@)
    } else if code[0] == 0x35 && code[1] == 0x34 {
        Some("Konami"@)
    } else if code[0] == 0x35 && code[1] == 0x35 {
        Some("Hi Tech Entertainment"@)
    } else if code[0] == 0x35 && code[1] == 0x36 {
        Some("LJN"@)
    } else if code[0] == 0x35 && code[1] == 0x37 {
        Some("Matchbox"@)
    } else if code[0] == 0x35 && code[1] == 0x38 {
        Some("Mattel"@)
    } else if code[0] == 0x35 && code[1] == 0x39 {
        Some("Milton Bradley"@)
    } else if code[0] == 0x36 && code[1] == 0x30 {
        Some("Titus"@)
    } else if code[0] == 0x36 && code[1] == 0x31 {
        Some("Virgin"@)
    } else if code[0] == 0x36 && code[1] == 0x34 {
        Some("LucasArts"@)
    } else if code[0] == 0x36 && code[1] == 0x37 {
        Some("Ocean"@)
    } else if code[0] == 0x36 && code[1] == 0x39 {
        Some("Electronic Arts"@)
    } else if code[0] == 0x37 && code[1] == 0x30 {
        Some("Infogrames"@)
    } else if code[0] == 0x37 && code[1] == 0x31 {
        Some("Interplay"@)
    } else if code[0] == 0x37 && code[1] == 0x32 {
        Some("Broderbund"@)
    } else if code[0] == 0x37 && code[1] == 0x33 {
        Some("Sculptured"@)
    } else if code[0] == 0x37 && code[1] == 0x35 {
        Some("SCI"@)
    } else if code[0] == 0x37 && code[1] == 0x38 {
        Some("THQ"@)
    } else if code[0] == 0x37 && code[1] == 0x39 {
        Some("Accolade"@)
    } else if code[0] == 0x38 && code[1] == 0x30 {
        Some("Misawa"@)
    } else if code[0] == 0x38 && code[1] == 0x33 {
        Some("Lozc"@)
    } else if code[0] == 0x38 && code[1] == 0x36 {
        Some("Tokuma Shoten Intermedia"@)
    } else if code[0] == 0x38 && code[1] == 0x37 {
        Some("Tsukuda Original"@)
    } else if code[0] == 0x39 && code[1] == 0x31 {
        Some("Chunsoft"@)
    } else if code[0] == 0x39 && code[1] == 0x32 {
        Some("Video System"@)
    } else if code[0] == 0x39 && code[1] == 0x33 {
        Some("Ocean/Acclaim"@)
    } else if code[0] == 0x39 && code[1] == 0x35 {
        Some("Varie"@)
    } else if code[0] == 0x39 && code[1] == 0x36 {
        Some("Yonezawa/S'pal"@)
    } else if code[0] == 0x39 && code[1] == 0x37 {
        Some("Kaneko"@)
    } else if code[0] == 0x39 && code[1] == 0x39 {
        Some("Pack in soft"@)
    } else if code[0] == 0x39 && code[1] == 0x46 {
        Some("Bottom Up"@)
    } else if code[0] == 0x41 && code[1] == 0x34 {
        Some("Konami (Yu-Gi-Oh!)"@)
    } else {
        None
    }
}

/// The name of a cartridge type.
pub fn cartridge_type_name(code: u8) -> (r: Option<&'static str>)
    ensures
        match r {
            Some(name) => spec_cartridge_type_name(code) == Some(name@),
            None => spec_cartridge_type_name(code) is None,
        },
{
    if code == 0x00 {
        Some("ROM ONLY")
    } else if code == 0x01 {
        Some("MBC1")
    } else if code == 0x02 {
        Some("MBC1+RAM")
    } else if code == 0x03 {
        Some("MBC1+RAM+BATTERY")
    } else if code == 0x05 {
        Some("MBC2")
    } else if code == 0x06 {
        Some("MBC2+BATTERY")
    } else if code == 0x08 {
        Some("ROM+RAM")
    } else if code == 0x09 {
        Some("ROM+RAM+BATTERY")
    } else if code == 0x0B {
        Some("MMM01")
    } else if code == 0x0C {
        Some("MMM01+RAM")
    } else if code == 0x0D {
        Some("MMM01+RAM+BATTERY")
    } else if code == 0x0F {
        Some("MBC3+TIMER+BATTERY")
    } else if code == 0x10 {
        Some("MBC3+TIMER+RAM+BATTERY")
    } else if code == 0x11 {
        Some("MBC3")
    } else if code == 0x12 {
        Some("MBC3+RAM")
    } else if code == 0x13 {
        Some("MBC3+RAM+BATTERY")
    } else if code == 0x15 {
        Some("MBC4")
    } else if code == 0x16 {
        Some("MBC4+RAM")
    } else if code == 0x17 {
        Some("MBC4+RAM+BATTERY")
    } else if code == 0x19 {
        Some("MBC5")
    } else if code == 0x1A {
        Some("MBC5+RAM")
    } else if code == 0x1B {
        Some("MBC5+RAM+BATTERY")
    } else if code == 0x1C {
        Some("MBC5+RUMBLE")
    } else if code == 0x1D {
        Some("MBC5+RUMBLE+RAM")
    } else if code == 0x1E {
        Some("MBC5+RUMBLE+RAM+BATTERY")
    } else if code == 0x20 {
        Some("MBC6")
    } else if code == 0x22 {
        Some("MBC7+SENSOR+RUMBLE+RAM+BATTERY")
    } else if code == 0xFC {
        Some("POCKET CAMERA")
    } else if code == 0xFD {
        Some("BANDAI TAMA5")
    } else if code == 0xFE {
        Some("HuC3")
    } else if code == 0xFF {
        Some("HuC1+RAM+BATTERY")
    } else {
        None
    }
}

/// The name of a RAM size code.
pub fn ram_size_name(code: u8) -> (r: Option<&'static str>)
    ensures
        match r {
            Some(name) => spec_ram_size_name(code) == Some(name@),
            None => spec_ram_size_name(code) is None,
        },
{
    if code == 0x00 {
        Some("No RAM")
    } else if code == 0x01 {
        Some("Unused")
    } else if code == 0x02 {
        Some("8 KiB")
    } else if code == 0x03 {
        Some("32 KiB (4 banks of 8 KiB each)")
    } else if code == 0x04 {
        Some("128 KiB (16 banks of 8 KiB each)")
    } else if code == 0x05 {
        Some("64 KiB (8 banks of 8 KiB each)")
    } else {
        None
    }
}

/// The publisher that a new licensee code stands for.
pub fn license_name(code: [u8; 2]) -> (r: Option<&'static str>)
    ensures
        match r {
            Some(name) => spec_license_name(code) == Some(name@),
            None => spec_license_name(code) is None,
        },
{
    let first: u8 = code[0];
    let second: u8 = code[1];
    if first == 0x30 && second == 0x30 {
        Some("None")
    } else if first == 0x30 && second == 0x31 {
        Some("Nintendo R&D1")
    } else if first == 0x30 && second == 0x38 {
        Some("Capcom")
    } else if first == 0x31 && second == 0x33 {
        Some("Electronic Arts")
    } else if first == 0x31 && second == 0x38 {
        Some("Hudson Soft")
    } else if first == 0x31 && second == 0x39 {
        Some("B-AI")
    } else if first == 0x32 && second == 0x30 {
        Some("KSS")
    } else if first == 0x32 && second == 0x32 {
        Some("POW")
    } else if first == 0x32 && second == 0x34 {
        Some("PCM Complete")
    } else if first == 0x32 && second == 0x35 {
        Some("San-X")
    } else if first == 0x32 && second == 0x38 {
        Some("Kemco Japan")
    } else if first == 0x32 && second == 0x39 {
        Some("Seta")
    } else if first == 0x33 && second == 0x30 {
        Some("Viacom")
    } else if first == 0x33 && second == 0x31 {
        Some("Nintendo")
    } else if first == 0x33 && second == 0x32 {
        Some("Bandai")
    } else if first == 0x33 && second == 0x33 {
        Some("Ocean/Acclaim")
    } else if first == 0x33 && second == 0x34 {
        Some("Konami")
    } else if first == 0x33 && second == 0x35 {
        Some("Hector")
    } else if first == 0x33 && second == 0x37 {
        Some("Taito")
    } else if first == 0x33 && second == 0x38 {
        Some("Hudson")
    } else if first == 0x33 && second == 0x39 {
        Some("Banpresto")
    } else if first == 0x34 && second == 0x31 {
        Some("Ubisoft")
    } else if first == 0x34 && second == 0x32 {
        Some("Atlus")
    } else if first == 0x34 && second == 0x34 {
        Some("Malibu")
    } else if first == 0x34 && second == 0x36 {
        Some("Angel")
    } else if first == 0x34 && second == 0x37 {
        Some("Bullet-Proof")
    } else if first == 0x34 && second == 0x39 {
        Some("Irem")
    } else if first == 0x35 && second == 0x30 {
        Some("Absolute")
    } else if first == 0x35 && second == 0x31 {
        Some("Acclaim")
    } else if first == 0x35 && second == 0x32 {
        Some("Activision")
    } else if first == 0x35 && second == 0x33 {
        Some("American Sammy")
    } else if first == 0x35 && second == 0x34 {
        Some("Konami")
    } else if first == 0x35 && second == 0x35 {
        Some("Hi Tech Entertainment")
    } else if first == 0x35 && second == 0x36 {
        Some("LJN")
    } else if first == 0x35 && second == 0x37 {
        Some("Matchbox")
    } else if first == 0x35 && second == 0x38 {
        Some("Mattel")
    } else if first == 0x35 && second == 0x39 {
        Some("Milton Bradley")
    } else if first == 0x36 && second == 0x30 {
        Some("Titus")
    } else if first == 0x36 && second == 0x31 {
        Some("Virgin")
    } else if first == 0x36 && second == 0x34 {
        Some("LucasArts")
    } else if first == 0x36 && second == 0x37 {
        Some("Ocean")
    } else if first == 0x36 && second == 0x39 {
        Some("Electronic Arts")
    } else if first == 0x37 && second == 0x30 {
        Some("Infogrames")
    } else if first == 0x37 && second == 0x31 {
        Some("Interplay")
    } else if first == 0x37 && second == 0x32 {
        Some("Broderbund")
    } else if first == 0x37 && second == 0x33 {
        Some("Sculptured")
    } else if first == 0x37 && second == 0x35 {
        Some("SCI")
    } else if first == 0x37 && second == 0x38 {
        Some("THQ")
    } else if first == 0x37 && second == 0x39 {
        Some("Accolade")
    } else if first == 0x38 && second == 0x30 {
        Some("Misawa")
    } else if first == 0x38 && second == 0x33 {
        Some("Lozc")
    } else if first == 0x38 && second == 0x36 {
        Some("Tokuma Shoten Intermedia")
    } else if first == 0x38 && second == 0x37 {
        Some("Tsukuda Original")
    } else if first == 0x39 && second == 0x31 {
        Some("Chunsoft")
    } else if first == 0x39 && second == 0x32 {
        Some("Video System")
    } else if first == 0x39 && second == 0x33 {
        Some("Ocean/Acclaim")
    } else if first == 0x39 && second == 0x35 {
        Some("Varie")
    } else if first == 0x39 && second == 0x36 {
        Some("Yonezawa/S'pal")
    } else if first == 0x39 && second == 0x37 {
        Some("Kaneko")
    } else if first == 0x39 && second == 0x39 {
        Some("Pack in soft")
    } else if first == 0x39 && second == 0x46 {
        Some("Bottom Up")
    } else if first == 0x41 && second == 0x34 {
        Some("Konami (Yu-Gi-Oh!)")
    } else {
        None
    }
}

/// Bank 0 is immutable: after any write below 0x8000 to a loaded
/// cartridge, a read in 0x0000 to 0x3FFF returns the byte of the ROM image
/// at that address, and the image is what it was.
pub proof fn law_bank0_immutable(c: CartridgeView, address: u16, data: u8, bank0: u16)
    requires
        c.wf(),
        address < 0x8000,
        bank0 < 0x4000,
    ensures
        c.spec_write(address, data).rom == c.rom,
        c.spec_write(address, data).spec_read(bank0) == c.rom[bank0 as int],
        c.spec_read(bank0) == c.rom[bank0 as int],
{
}

/// No write changes the ROM image, whatever its address.
pub proof fn law_rom_is_read_only(c: CartridgeView, address: u16, data: u8)
    ensures
        c.spec_write(address, data).rom == c.rom,
{
}

/// The RAM-enable gate: while the latch is clear, every read in 0xA000 to
/// 0xBFFF returns 0xFF and every write there changes nothing.
pub proof fn law_ram_enable_gate(c: CartridgeView, address: u16, data: u8)
    requires
        !c.ram_enabled,
        0xA000 <= address < 0xC000,
    ensures
        c.spec_read(address) == 0xFF,
        c.spec_write(address, data) == c,
{
}

/// The latch is set by a write below 0x2000 whose low nibble is 0xA, and
/// cleared by any other write there.
pub proof fn law_ram_enable_latch(c: CartridgeView, address: u16, data: u8)
    requires
        c.spec_mbc1(),
        address < 0x2000,
    ensures
        c.spec_write(address, data).ram_enabled == (data % 16 == 0x0A),
{
}

/// The switchable window never shows bank 0: of a loaded cartridge the
/// bank in the window is 1 to 127.
pub proof fn law_rom_bank_range(c: CartridgeView)
    requires
        c.wf(),
    ensures
        1 <= c.spec_rom_bank() <= 127,
{
}

/// The header checksum: of every loaded cartridge the sum of
/// `-rom[i] - 1` over the header bytes 0x134 to 0x14C, reduced to eight
/// bits, is the byte at 0x14D.
pub proof fn law_header_checksum(c: CartridgeView)
    requires
        c.wf(),
    ensures
        spec_header_sum(c.rom, 0x134, 0x14D) % 0x100 == c.rom[0x14D],
{
}

/// An image is accepted exactly when it has 32 KiB to 8 MiB and a header
/// whose checksum matches.
pub proof fn law_load_accepts(rom: Seq<u8>)
    ensures
        spec_load(rom) is Ok <==> (MIN_ROM_SIZE <= rom.len() <= MAX_ROM_SIZE
            && spec_header_sum(rom, 0x134, 0x14D) % 0x100 == rom[0x14D]),
{
}

/// The battery round trip: what was handed out for saving comes back as
/// bank 0 when it is taken in again, by this cartridge or by another one
/// with RAM.
pub proof fn law_battery_round_trip(saved: CartridgeView, fresh: CartridgeView)
    requires
        saved.ram.len() >= RAM_BANK_SIZE,
        fresh.ram.len() >= RAM_BANK_SIZE,
    ensures
        fresh.spec_load_battery(saved.spec_battery_image()).spec_battery_image()
            == saved.spec_battery_image(),
        saved.spec_saved().spec_battery_image() == saved.spec_battery_image(),
        !saved.spec_saved().need_save,
{
    let image = saved.spec_battery_image();
    let loaded = fresh.spec_load_battery(image);
    assert(loaded.spec_battery_image() =~= image);
}

/// Reducing after every step gives the same eight bits as reducing the
/// whole sum once.
proof fn lemma_checksum_step(sum: int, byte: u8)
    ensures
        ((sum % 0x100) - byte - 1) % 0x100 == (sum - byte - 1) % 0x100,
{
}

/// The name in brackets behind a code: the name, or `UNKNOWN` where the
/// code has none.
pub open spec fn spec_bracket(name: Option<Seq<char>>) -> Seq<char> {
    " ("@ + (match name {
        Some(n) => n,
        None => "UNKNOWN"@,
    }) + ")"@
}

/// The name in brackets behind a code.
fn bracket(name: Option<&'static str>) -> (r: String)
    ensures
        r@ == spec_bracket(
            match name {
                Some(n) => Some(n@),
                None => None,
            },
        ),
{
    let mut r: String = " (".to_owned();
    match name {
        Some(n) => {
            r.append(n);
        },
        None => {
            r.append("UNKNOWN");
        },
    }
    r.append(")");
    r
}

/// The texts of a list of strings.
pub open spec fn spec_lines(lines: Seq<String>) -> Seq<Seq<char>> {
    Seq::new(lines.len(), |i: int| lines[i]@)
}

impl Cartridge {
    /// The title as text.
    pub open spec fn spec_title_text(&self) -> Seq<char> {
        spec_text(spec_title(self.rom_header.title@))
    }

    /// The name of the save file: the title and `.sav`.
    pub open spec fn spec_battery_file_name(&self) -> Seq<char> {
        self.spec_title_text() + ".sav"@
    }

    /// The line that tells the licensee.
    pub open spec fn spec_license_line(&self) -> Seq<char> {
        "  License code: "@ + spec_text(self.rom_header.new_license_code@) + spec_bracket(
            spec_license_name(self.rom_header.new_license_code),
        )
    }

    /// What the header says about the cartridge, line by line: the file,
    /// the size of the image, the title, the type and the RAM size with
    /// their names, and the licensee, after a line of complaint where the
    /// licensee code is not known.
    pub open spec fn spec_info_lines(&self) -> Seq<Seq<char>> {
        seq![
            "======= Cartridge information ======="@,
            "  Filename: "@ + self.filename@,
            "  ROM size: "@ + spec_decimal(self.rom_size as nat) + " bytes"@,
            "  Title: "@ + self.spec_title_text(),
            "  Cartridge type: "@ + spec_decimal(self.rom_header.cartridge_type as nat)
                + spec_bracket(spec_cartridge_type_name(self.rom_header.cartridge_type)),
            "  RAM size: "@ + spec_decimal(self.rom_header.ram_size as nat) + spec_bracket(
                spec_ram_size_name(self.rom_header.ram_size),
            ),
        ] + (if spec_license_name(self.rom_header.new_license_code) is None {
            seq![
                "  Invalid license code: "@ + spec_text(self.rom_header.new_license_code@),
                self.spec_license_line(),
            ]
        } else {
            seq![self.spec_license_line()]
        }) + seq!["====================================="@]
    }

    /// The title as text, without its trailing NUL bytes.
    pub fn title_text(&self) -> (r: String)
        ensures
            r@ == self.spec_title_text(),
    {
        let bytes: Vec<u8> = self.title();
        text(&bytes)
    }

    /// The name of the save file: the title and `.sav`.
    pub fn battery_file_name(&self) -> (r: String)
        ensures
            r@ == self.spec_battery_file_name(),
    {
        let mut r: String = self.title_text();
        r.append(".sav");
        r
    }

    /// The two characters of the new licensee code.
    fn license_text(&self) -> (r: String)
        ensures
            r@ == spec_text(self.rom_header.new_license_code@),
    {
        let mut bytes: Vec<u8> = Vec::new();
        bytes.push(self.rom_header.new_license_code[0]);
        bytes.push(self.rom_header.new_license_code[1]);
        assert(bytes@ =~= self.rom_header.new_license_code@);
        text(&bytes)
    }

    /// Writes out what the header says about the cartridge, line by line.
    pub fn print_info(&self) -> (lines: Vec<String>)
        ensures
            spec_lines(lines@) == self.spec_info_lines(),
    {
        let mut lines: Vec<String> = Vec::new();
        lines.push("======= Cartridge information =======".to_owned());
        let mut line: String = "  Filename: ".to_owned();
        line.append(self.filename.as_str());
        lines.push(line);
        let mut line: String = "  ROM size: ".to_owned();
        line.append(decimal(self.rom_size as u64).as_str());
        line.append(" bytes");
        lines.push(line);
        let mut line: String = "  Title: ".to_owned();
        line.append(self.title_text().as_str());
        lines.push(line);
        let mut line: String = "  Cartridge type: ".to_owned();
        line.append(decimal(self.rom_header.cartridge_type as u64).as_str());
        line.append(bracket(cartridge_type_name(self.rom_header.cartridge_type)).as_str());
        lines.push(line);
        let mut line: String = "  RAM size: ".to_owned();
        line.append(decimal(self.rom_header.ram_size as u64).as_str());
        line.append(bracket(ram_size_name(self.rom_header.ram_size)).as_str());
        lines.push(line);
        let license: Option<&'static str> = license_name(self.rom_header.new_license_code);
        if license.is_none() {
            let mut line: String = "  Invalid license code: ".to_owned();
            line.append(self.license_text().as_str());
            lines.push(line);
        }
        let mut line: String = "  License code: ".to_owned();
        line.append(self.license_text().as_str());
        line.append(bracket(license).as_str());
        lines.push(line);
        lines.push("=====================================".to_owned());
        assert(spec_lines(lines@) =~= self.spec_info_lines());
        lines
    }

    /// Computes the header checksum and compares it with the byte at
    /// 0x14D.
    pub fn verify_checksum(rom: &Vec<u8>) -> (r: bool)
        requires
            rom.len() > CHECKSUM_ADDR,
        ensures
            r == spec_checksum_valid(rom@),
    {
        let mut checksum: u8 = 0;
        let mut i: usize = CHECKSUM_START;
        while i < CHECKSUM_ADDR
            invariant
                CHECKSUM_START <= i <= CHECKSUM_ADDR,
                rom.len() > CHECKSUM_ADDR,
                checksum as int == spec_header_sum(rom@, CHECKSUM_START as int, i as int) % 0x100,
            decreases CHECKSUM_ADDR - i,
        {
            let byte: u8 = rom[i];
            proof {
                lemma_checksum_step(
                    spec_header_sum(rom@, CHECKSUM_START as int, i as int),
                    byte,
                );
            }
            checksum = ((checksum as u16 + 0x200 - byte as u16 - 1) % 0x100) as u8;
            i = i + 1;
        }
        checksum == rom[CHECKSUM_ADDR]
    }

    /// Reads the header fields out of the image.
    pub fn parse_header(rom: &Vec<u8>) -> (h: RomHeader)
        requires
            rom.len() >= 0x150,
        ensures
            h == spec_parse_header(rom@),
    {
        RomHeader {
            title: [
                rom[0x134],
                rom[0x135],
                rom[0x136],
                rom[0x137],
                rom[0x138],
                rom[0x139],
                rom[0x13A],
                rom[0x13B],
                rom[0x13C],
                rom[0x13D],
                rom[0x13E],
                rom[0x13F],
                rom[0x140],
                rom[0x141],
                rom[0x142],
                rom[0x143],
            ],
            new_license_code: [rom[0x144], rom[0x145]],
            sgb_flag: rom[0x146],
            cartridge_type: rom[0x147],
            rom_size: rom[0x148],
            ram_size: rom[0x149],
            destination_code: rom[0x14A],
            old_license_code: rom[0x14B],
            mask_rom_version_number: rom[0x14C],
            header_checksum: rom[0x14D],
            global_checksum: (rom[0x14E] as u16) * 0x100 + (rom[0x14F] as u16),
        }
    }

    /// The number of RAM banks that the header asks for.
    pub fn ram_banks(ram_size: u8) -> (n: usize)
        ensures
            n == spec_ram_banks(ram_size),
    {
        if ram_size == 0x02 {
            1
        } else if ram_size == 0x03 {
            4
        } else if ram_size == 0x04 {
            16
        } else if ram_size == 0x05 {
            8
        } else {
            0
        }
    }

    /// Makes a cartridge of the bytes of a ROM file. The image must hold
    /// 32 KiB to 8 MiB and a header whose checksum matches.
    pub fn load_rom_file(rom_file: &str, rom_data: Vec<u8>) -> (r: Result<
        Cartridge,
        CartridgeError,
    >)
        ensures
            match r {
                Ok(c) => spec_load(rom_data@) == Ok::<CartridgeView, CartridgeError>(c@) && c@.wf()
                    && c.filename@ == rom_file@,
                Err(e) => spec_load(rom_data@) == Err::<CartridgeView, CartridgeError>(e),
            },
    {
        if rom_data.len() < MIN_ROM_SIZE {
            return Err(CartridgeError::RomTooSmall);
        }
        if rom_data.len() > MAX_ROM_SIZE {
            return Err(CartridgeError::RomTooLarge);
        }
        if !Cartridge::verify_checksum(&rom_data) {
            return Err(CartridgeError::BadChecksum);
        }
        let header: RomHeader = Cartridge::parse_header(&rom_data);
        let banks: usize = Cartridge::ram_banks(header.ram_size);
        let ram: Vec<u8> = vec![0u8; banks * RAM_BANK_SIZE];
        let battery: bool = Cartridge::type_has_battery(header.cartridge_type);
        let cart = Cartridge {
            filename: rom_file.to_owned(),
            rom_header: header,
            rom_size: rom_data.len(),
            rom: rom_data,
            ram_enabled: false,
            ram_banking: false,
            banking_mode: 0,
            rom_bank_value: 1,
            ram_bank_value: 0,
            ram: ram,
            has_battery: battery,
            need_save: false,
            flush_due: false,
        };
        assert(cart@.ram =~= spec_loaded(cart@.rom).ram);
        Ok(cart)
    }

    /// Whether the cartridge type has a battery.
    pub fn type_has_battery(cartridge_type: u8) -> (r: bool)
        ensures
            r == spec_type_has_battery(cartridge_type),
    {
        cartridge_type == 0x03 || cartridge_type == 0x06 || cartridge_type == 0x09
            || cartridge_type == 0x0D || cartridge_type == 0x0F || cartridge_type == 0x10
            || cartridge_type == 0x13 || cartridge_type == 0x17 || cartridge_type == 0x1B
            || cartridge_type == 0x1E
    }

    /// The byte of the image at `index`; 0xFF past its end.
    fn rom_byte(&self, index: usize) -> (r: u8)
        ensures
            r == self@.spec_rom_byte(index as int),
    {
        if index < self.rom.len() {
            self.rom[index]
        } else {
            0xFF
        }
    }

    /// The ROM bank in the switchable window.
    pub fn rom_bank(&self) -> (r: usize)
        ensures
            r == self@.spec_rom_bank(),
            r <= 0x20DF,
    {
        if self.ram_banking {
            self.rom_bank_value as usize
        } else {
            (self.ram_bank_value as usize) * 32 + (self.rom_bank_value as usize)
        }
    }

    /// The RAM bank in the window.
    pub fn ram_bank(&self) -> (r: usize)
        ensures
            r == self@.spec_ram_bank(),
            r <= 0xFF,
    {
        if self.ram_banking {
            self.ram_bank_value as usize
        } else {
            0
        }
    }

    /// Reads a byte from the ROM or the external RAM.
    pub fn read(&self, address: u16) -> (r: u8)
        ensures
            r == self@.spec_read(address),
    {
        if address < 0x4000 {
            return self.rom_byte(address as usize);
        }
        if address < 0x8000 {
            return self.rom_byte(self.rom_bank() * 0x4000 + (address as usize - 0x4000));
        }
        if 0xA000 <= address && address < 0xC000 {
            if !self.ram_enabled {
                return 0xFF;
            }
            let index: usize = self.ram_bank() * RAM_BANK_SIZE + (address as usize - 0xA000);
            if index < self.ram.len() {
                return self.ram[index];
            }
        }
        0xFF
    }

    /// Writes a byte to the MBC1 registers or the external RAM.
    pub fn write(&mut self, address: u16, data: u8)
        ensures
            final(self)@ == old(self)@.spec_write(address, data),
            final(self).filename == old(self).filename,
            old(self)@.wf() ==> final(self)@.wf(),
    {
        if !self.mbc1() {
            return ;
        }
        if address < 0x2000 {
            self.ram_enabled = data % 16 == 0x0A;
            return ;
        }
        if address < 0x4000 {
            let low: u8 = data % 32;
            self.rom_bank_value = if low == 0 {
                1
            } else {
                low
            };
            return ;
        }
        if address < 0x6000 {
            self.ram_bank_value = data % 4;
            return ;
        }
        if address < 0x8000 {
            self.banking_mode = data % 2;
            self.ram_banking = self.banking_mode > 0;
            if self.ram_banking && self.need_save() {
                self.flush_due = true;
            }
            return ;
        }
        if 0xA000 <= address && address < 0xC000 {
            if !self.ram_enabled {
                return ;
            }
            let index: usize = self.ram_bank() * RAM_BANK_SIZE + (address as usize - 0xA000);
            if index < self.ram.len() {
                self.ram.set(index, data);
                if self.has_battery {
                    self.need_save = true;
                }
            }
        }
    }

    /// Returns whether the external RAM was written since it was last
    /// saved.
    pub fn need_save(&self) -> (r: bool)
        ensures
            r == self.need_save,
    {
        self.need_save
    }

    /// Returns whether the cartridge has an MBC1.
    pub fn mbc1(&self) -> (r: bool)
        ensures
            r == self@.spec_mbc1(),
    {
        self.rom_header.cartridge_type == 0x01 || self.rom_header.cartridge_type == 0x02
            || self.rom_header.cartridge_type == 0x03
    }

    /// Returns whether the cartridge has a battery.
    pub fn has_battery(&self) -> (r: bool)
        ensures
            r == spec_type_has_battery(self.rom_header.cartridge_type),
    {
        Cartridge::type_has_battery(self.rom_header.cartridge_type)
    }

    /// The title without its trailing NUL bytes.
    pub fn title(&self) -> (t: Vec<u8>)
        ensures
            t@ == spec_title(self.rom_header.title@),
    {
        let mut len: usize = 16;
        while len > 0 && self.rom_header.title[len - 1] == 0
            invariant
                len <= 16,
                spec_title_len(self.rom_header.title@, len as int) == spec_title_len(
                    self.rom_header.title@,
                    16,
                ),
            decreases len,
        {
            len = len - 1;
        }
        let mut t: Vec<u8> = Vec::new();
        let mut i: usize = 0;
        while i < len
            invariant
                i <= len <= 16,
                t@ == self.rom_header.title@.subrange(0, i as int),
            decreases len - i,
        {
            t.push(self.rom_header.title[i]);
            i = i + 1;
        }
        t
    }

    /// Takes in the bytes of a save file: its first 8 KiB replace bank 0
    /// of the external RAM. Returns false, and changes nothing, where the
    /// cartridge has no RAM or the file is shorter than a bank.
    pub fn load_battery(&mut self, data: &Vec<u8>) -> (ok: bool)
        ensures
            ok == old(self)@.spec_battery_fits(data@),
            final(self)@ == old(self)@.spec_load_battery(data@),
            final(self).filename == old(self).filename,
            old(self)@.wf() ==> final(self)@.wf(),
    {
        if self.ram.len() < RAM_BANK_SIZE || data.len() < RAM_BANK_SIZE {
            return false;
        }
        let mut i: usize = 0;
        while i < RAM_BANK_SIZE
            invariant
                i <= RAM_BANK_SIZE,
                data.len() >= RAM_BANK_SIZE,
                self.ram.len() == old(self).ram.len(),
                self.ram.len() >= RAM_BANK_SIZE,
                forall|j: int| 0 <= j < i ==> self.ram@[j] == data@[j],
                forall|j: int| i <= j < self.ram.len() ==> self.ram@[j] == old(self).ram@[j],
                self.filename == old(self).filename,
                self.rom_header == old(self).rom_header,
                self.rom_size == old(self).rom_size,
                self.rom == old(self).rom,
                self.ram_enabled == old(self).ram_enabled,
                self.ram_banking == old(self).ram_banking,
                self.banking_mode == old(self).banking_mode,
                self.rom_bank_value == old(self).rom_bank_value,
                self.ram_bank_value == old(self).ram_bank_value,
                self.has_battery == old(self).has_battery,
                self.need_save == old(self).need_save,
                self.flush_due == old(self).flush_due,
            decreases RAM_BANK_SIZE - i,
        {
            self.ram.set(i, data[i]);
            i = i + 1;
        }
        assert(self@.ram =~= old(self)@.spec_load_battery(data@).ram);
        true
    }

    /// Hands out what the save file is to hold and marks the RAM as
    /// saved.
    pub fn save_battery(&mut self) -> (image: Vec<u8>)
        ensures
            image@ == old(self)@.spec_battery_image(),
            final(self)@ == old(self)@.spec_saved(),
            final(self).filename == old(self).filename,
            old(self)@.wf() ==> final(self)@.wf(),
    {
        self.need_save = false;
        self.flush_due = false;
        let mut image: Vec<u8> = Vec::new();
        if self.ram.len() < RAM_BANK_SIZE {
            return image;
        }
        let mut i: usize = 0;
        while i < RAM_BANK_SIZE
            invariant
                i <= RAM_BANK_SIZE <= self.ram.len(),
                image@ == self.ram@.subrange(0, i as int),
            decreases RAM_BANK_SIZE - i,
        {
            image.push(self.ram[i]);
            i = i + 1;
        }
        image
    }
}

} // verus!
