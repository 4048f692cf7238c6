//! The cartridge: its bytes and what its header says.
//!
//! The header lies at `0x0100` to `0x014F`: the entry point, the logo, the
//! title, the licensee, the kind of cartridge, the sizes of its ROM and RAM,
//! and two checksums.

use vstd::prelude::*;
use crate::bits::lemma_word_bits;

verus! {

/// The length that a cartridge must have to hold a header.
pub const HEADER_END: usize = 0x150;

/// Why a header cannot be read.
#[derive(Copy, Clone, Debug, PartialEq, Eq, Structural)]
pub enum HeaderError {
    /// The cartridge is shorter than `0x150` bytes.
    TooShort,
    /// The byte at `0x148` names no ROM size.
    UnknownRomSize,
    /// The byte at `0x149` names no RAM size.
    UnknownRamSize,
}

/// What the header of a cartridge says.
#[derive(Debug)]
pub struct CartridgeHeader {
    pub destination: &'static str,
    pub nintendo_logo: [u8; 48],
    pub cgb_flag: bool,
    pub sgb_flag: bool,
    pub licensee: &'static str,
    /// The bytes of the title, up to its end or to sixteen of them.
    pub title: Vec<u8>,
    pub rom_size: u32,
    pub rom_type: u8,
    pub rom_type_name: &'static str,
    pub rom_version: u8,
    pub ram_size: u32,
    pub header_checksum: u8,
    pub global_checksum: u16,
}

/// A cartridge: where it came from, and what it holds.
#[derive(Debug)]
pub struct Cartridge {
    pub file: String,
    pub size: u32,
    pub data: Vec<u8>,
    pub header: CartridgeHeader,
}

/// Where the cartridge is sold, by the byte at `0x14A`.
pub open spec fn spec_destination(code: u8) -> &'static str {
    if code == 0 {
        "Japan"
    } else {
        "Overseas"
    }
}

/// The size of the ROM in bytes, by the byte at `0x148`: 32 KiB doubled
/// `code` times for the codes 0 to 8, and three odd sizes.
pub open spec fn spec_rom_size(code: u8) -> Option<u32> {
    if code == 0x00 {
        Some(0x8000)
    } else if code == 0x01 {
        Some(0x1_0000)
    } else if code == 0x02 {
        Some(0x2_0000)
    } else if code == 0x03 {
        Some(0x4_0000)
    } else if code == 0x04 {
        Some(0x8_0000)
    } else if code == 0x05 {
        Some(0x10_0000)
    } else if code == 0x06 {
        Some(0x20_0000)
    } else if code == 0x07 {
        Some(0x40_0000)
    } else if code == 0x08 {
        Some(0x80_0000)
    } else if code == 0x52 {
        Some(1_179_648)
    } else if code == 0x53 {
        Some(1_310_720)
    } else if code == 0x54 {
        Some(1_572_864)
    } else {
        None
    }
}

/// The size of the cartridge's RAM in bytes, by the byte at `0x149`.
pub open spec fn spec_ram_size(code: u8) -> Option<u32> {
    if code == 0 || code == 1 {
        Some(0)
    } else if code == 2 {
        Some(0x2000)
    } else if code == 3 {
        Some(0x8000)
    } else if code == 4 {
        Some(0x2_0000)
    } else if code == 5 {
        Some(0x1_0000)
    } else {
        None
    }
}

/// The kind of the cartridge, by the byte at `0x147`; empty for a byte that
/// names none.
pub open spec fn spec_rom_type(code: u8) -> &'static str {
    match code {
        0x00 => "ROM ONLY",
        0x01 => "MBC1",
        0x02 => "MBC1+RAM",
        0x03 => "MBC1+RAM+BATTERY",
        0x05 => "MBC2",
        0x06 => "MBC2+BATTERY",
        0x08 => "ROM+RAM",
        0x09 => "ROM+RAM+BATTERY",
        0x0B => "MMM01",
        0x0C => "MMM01+RAM",
        0x0D => "MMM01+RAM+BATTERY",
        0x0F => "MBC3+TIMER+BATTERY",
        0x10 => "MBC3+TIMER+RAM+BATTERY",
        0x11 => "MBC3",
        0x12 => "MBC3+RAM",
        0x13 => "MBC3+RAM+BATTERY",
        0x19 => "MBC5",
        0x1A => "MBC5+RAM",
        0x1B => "MBC5+RAM+BATTERY",
        0x1C => "MBC5+RUMBLE",
        0x1D => "MBC5+RUMBLE+RAM",
        0x1E => "MBC5+RUMBLE+RAM+BATTERY",
        0x20 => "MBC6",
        0x22 => "MBC7+SENSOR+RUMBLE+RAM+BATTERY",
        0xFC => "POCKET CAMERA",
        0xFD => "BANDAI TAMA5",
        0xFE => "HuC3",
        0xFF => "HuC1+RAM+BATTERY",
        _ => "",
    }
}

/// The publisher by the old licensee code, the byte at `0x14B`; empty for a
/// byte that names none.
pub open spec fn spec_old_licensee(code: u8) -> &'static str {
    match code {
        0x00 => "None",
        0x01 => "Nintendo",
        0x08 => "Capcom",
        0x09 => "HOT-B",
        0x0A => "Jaleco",
        0x0B => "Coconuts Japan",
        0x0C => "Elite Systems",
        0x13 => "EA (Electronic Arts)",
        0x18 => "Hudson Soft",
        0x19 => "ITC Entertainment",
        0x1A => "Yanoman",
        0x1D => "Japan Clary",
        0x1F => "Virgin Games Ltd.3",
        0x24 => "PCM Complete",
        0x25 => "San-X",
        0x28 => "Kemco",
        0x29 => "SETA Corporation",
        0x30 => "Infogrames5",
        0x31 => "Nintendo",
        0x32 => "Bandai",
        0x33 => "Indicates that the New licensee code should be used instead.",
        0x34 => "Konami",
        0x35 => "HectorSoft",
        0x38 => "Capcom",
        0x39 => "Banpresto",
        0x3C => "Entertainment Interactive (stub)",
        0x3E => "Gremlin",
        0x41 => "Ubi Soft1",
        0x42 => "Atlus",
        0x44 => "Malibu Interactive",
        0x46 => "Angel",
        0x47 => "Spectrum HoloByte",
        0x49 => "Irem",
        0x4A => "Virgin Games Ltd.3",
        0x4D => "Malibu Interactive",
        0x4F => "U.S. Gold",
        0x50 => "Absolute",
        0x51 => "Acclaim Entertainment",
        0x52 => "Activision",
        0x53 => "Sammy USA Corporation",
        0x54 => "GameTek",
        0x55 => "Park Place13",
        0x56 => "LJN",
        0x57 => "Matchbox",
        0x59 => "Milton Bradley Company",
        0x5A => "Mindscape",
        0x5B => "Romstar",
        0x5C => "Naxat Soft14",
        0x5D => "Tradewest",
        0x60 => "Titus Interactive",
        0x61 => "Virgin Games Ltd.3",
        0x67 => "Ocean Software",
        0x69 => "EA (Electronic Arts)",
        0x6E => "Elite Systems",
        0x6F => "Electro Brain",
        0x70 => "Infogrames5",
        0x71 => "Interplay Entertainment",
        0x72 => "Broderbund",
        0x73 => "Sculptured Software6",
        0x75 => "The Sales Curve Limited7",
        0x78 => "THQ",
        0x79 => "Accolade15",
        0x7A => "Triffix Entertainment",
        0x7C => "MicroProse",
        0x7F => "Kemco",
        0x80 => "Misawa Entertainment",
        0x83 => "LOZC G.",
        0x86 => "Tokuma Shoten",
        0x8B => "Bullet-Proof Software2",
        0x8C => "Vic Tokai Corp.16",
        0x8E => "Ape Inc.17",
        0x8F => "I’Max18",
        0x91 => "Chunsoft Co.8",
        0x92 => "Video System",
        0x93 => "Tsubaraya Productions",
        0x95 => "Varie",
        0x96 => "Yonezawa19/S’Pal",
        0x97 => "Kemco",
        0x99 => "Arc",
        0x9A => "Nihon Bussan",
        0x9B => "Tecmo",
        0x9C => "Imagineer",
        0x9D => "Banpresto",
        0x9F => "Nova",
        0xA1 => "Hori Electric",
        0xA2 => "Bandai",
        0xA4 => "Konami",
        0xA6 => "Kawada",
        0xA7 => "Takara",
        0xA9 => "Technos Japan",
        0xAA => "Broderbund",
        0xAC => "Toei Animation",
        0xAD => "Toho",
        0xAF => "Namco",
        0xB0 => "Acclaim Entertainment",
        0xB1 => "ASCII Corporation or Nexsoft",
        0xB2 => "Bandai",
        0xB4 => "Square Enix",
        0xB6 => "HAL Laboratory",
        0xB7 => "SNK",
        0xB9 => "Pony Canyon",
        0xBA => "Culture Brain",
        0xBB => "Sunsoft",
        0xBD => "Sony Imagesoft",
        0xBF => "Sammy Corporation",
        0xC0 => "Taito",
        0xC2 => "Kemco",
        0xC3 => "Square",
        0xC4 => "Tokuma Shoten",
        0xC5 => "Data East",
        0xC6 => "Tonkin House",
        0xC8 => "Koei",
        0xC9 => "UFL",
        0xCA => "Ultra Games",
        0xCB => "VAP, Inc.",
        0xCC => "Use Corporation",
        0xCD => "Meldac",
        0xCE => "Pony Canyon",
        0xCF => "Angel",
        0xD0 => "Taito",
        0xD1 => "SOFEL (Software Engineering Lab)",
        0xD2 => "Quest",
        0xD3 => "Sigma Enterprises",
        0xD4 => "ASK Kodansha Co.",
        0xD6 => "Naxat Soft14",
        0xD7 => "Copya System",
        0xD9 => "Banpresto",
        0xDA => "Tomy",
        0xDB => "LJN",
        0xDD => "Nippon Computer Systems",
        0xDE => "Human Ent.",
        0xDF => "Altron",
        0xE0 => "Jaleco",
        0xE1 => "Towa Chiki",
        0xE2 => "Yutaka # Needs more info",
        0xE3 => "Varie",
        0xE5 => "Epoch",
        0xE7 => "Athena",
        0xE8 => "Asmik Ace Entertainment",
        0xE9 => "Natsume",
        0xEA => "King Records",
        0xEB => "Atlus",
        0xEC => "Epic/Sony Records",
        0xEE => "IGS",
        0xF0 => "A Wave",
        0xF3 => "Extreme Entertainment",
        0xFF => "LJN",
        _ => "",
    }
}

/// The publisher by the new licensee code, the two characters at `0x144` and
/// `0x145`; empty for a pair that names none.
pub open spec fn spec_new_licensee(first: u8, second: u8) -> &'static str {
    match (first, second) {
        (0x30, 0x30) => "None",
        (0x30, 0x31) => "Nintendo Research & Development 1",
        (0x30, 0x38) => "Capcom",
        (0x31, 0x33) => "EA (Electronic Arts)",
        (0x31, 0x38) => "Hudson Soft",
        (0x31, 0x39) => "B-AI",
        (0x32, 0x30) => "KSS",
        (0x32, 0x32) => "Planning Office WADA",
        (0x32, 0x34) => "PCM Complete",
        (0x32, 0x35) => "San-X",
        (0x32, 0x38) => "Kemco",
        (0x32, 0x39) => "SETA Corporation",
        (0x33, 0x30) => "Viacom",
        (0x33, 0x31) => "Nintendo",
        (0x33, 0x32) => "Bandai",
        (0x33, 0x33) => "Ocean Software/Acclaim Entertainment",
        (0x33, 0x34) => "Konami",
        (0x33, 0x35) => "HectorSoft",
        (0x33, 0x37) => "Taito",
        (0x33, 0x38) => "Hudson Soft",
        (0x33, 0x39) => "Banpresto",
        (0x34, 0x31) => "Ubi Soft1",
        (0x34, 0x32) => "Atlus",
        (0x34, 0x34) => "Malibu Interactive",
        (0x34, 0x36) => "Angel",
        (0x34, 0x37) => "Bullet-Proof Software2",
        (0x34, 0x39) => "Irem",
        (0x35, 0x30) => "Absolute",
        (0x35, 0x31) => "Acclaim Entertainment",
        (0x35, 0x32) => "Activision",
        (0x35, 0x33) => "Sammy USA Corporation",
        (0x35, 0x34) => "Konami",
        (0x35, 0x35) => "Hi Tech Expressions",
        (0x35, 0x36) => "LJN",
        (0x35, 0x37) => "Matchbox",
        (0x35, 0x38) => "Mattel",
        (0x35, 0x39) => "Milton Bradley Company",
        (0x36, 0x30) => "Titus Interactive",
        (0x36, 0x31) => "Virgin Games Ltd.3",
        (0x36, 0x34) => "Lucasfilm Games4",
        (0x36, 0x37) => "Ocean Software",
        (0x36, 0x39) => "EA (Electronic Arts)",
        (0x37, 0x30) => "Infogrames5",
        (0x37, 0x31) => "Interplay Entertainment",
        (0x37, 0x32) => "Broderbund",
        (0x37, 0x33) => "Sculptured Software6",
        (0x37, 0x35) => "The Sales Curve Limited7",
        (0x37, 0x38) => "THQ",
        (0x37, 0x39) => "Accolade",
        (0x38, 0x30) => "Misawa Entertainment",
        (0x38, 0x33) => "lozc",
        (0x38, 0x36) => "Tokuma Shoten",
        (0x38, 0x37) => "Tsukuda Original",
        (0x39, 0x31) => "Chunsoft Co.8",
        (0x39, 0x32) => "Video System",
        (0x39, 0x33) => "Ocean Software/Acclaim Entertainment",
        (0x39, 0x35) => "Varie",
        (0x39, 0x36) => "Yonezawa/s’pal",
        (0x39, 0x37) => "Kaneko",
        (0x39, 0x39) => "Pack-In-Video",
        (0x39, 0x48) => "Bottom Up",
        (0x41, 0x34) => "Konami (Yu-Gi-Oh!)",
        (0x42, 0x4C) => "MTO",
        (0x44, 0x4B) => "Kodansha",
        _ => "",
    }
}

/// The publisher of a cartridge: by the new code where the old code is
/// `0x33`, by the old code elsewhere.
pub open spec fn spec_licensee(rom: Seq<u8>) -> &'static str {
    if rom[0x014B] != 0x33 {
        spec_old_licensee(rom[0x014B])
    } else {
        spec_new_licensee(rom[0x0144], rom[0x0145])
    }
}

/// The number of bytes of the title: those from `0x134` on, before the first
/// zero byte, and sixteen at most.
pub open spec fn title_length(rom: Seq<u8>, from: nat) -> nat
    decreases 16 - from,
{
    if from >= 16 || rom[0x134 + from as int] == 0 {
        from
    } else {
        title_length(rom, from + 1)
    }
}

/// The bytes of the title.
pub open spec fn spec_title(rom: Seq<u8>) -> Seq<u8> {
    rom.subrange(0x134, 0x134 + title_length(rom, 0) as int)
}

/// The checksum of the header bytes from `0x134` up to, but not including,
/// `end`: from zero, each byte and one more are subtracted, modulo 256.
pub open spec fn checksum_upto(rom: Seq<u8>, end: nat) -> u8
    decreases end,
{
    if end <= 0x134 {
        0
    } else {
        ((checksum_upto(rom, (end - 1) as nat) - rom[end - 1] - 1) % 256) as u8
    }
}

/// The checksum that a valid header holds at `0x14D`: that of the bytes
/// `0x134` to `0x14C`.
pub open spec fn spec_checksum(rom: Seq<u8>) -> u8 {
    checksum_upto(rom, 0x14D)
}

/// Whether a header can be read from these bytes, and if not, why not.
pub open spec fn header_error(rom: Seq<u8>) -> Option<HeaderError> {
    if rom.len() < 0x150 {
        Some(HeaderError::TooShort)
    } else if spec_rom_size(rom[0x148]) is None {
        Some(HeaderError::UnknownRomSize)
    } else if spec_ram_size(rom[0x149]) is None {
        Some(HeaderError::UnknownRamSize)
    } else {
        None
    }
}

impl CartridgeHeader {
    /// Whether the header says what the bytes of the cartridge hold.
    pub open spec fn describes(&self, rom: Seq<u8>) -> bool {
        &&& self.destination == spec_destination(rom[0x014A])
        &&& self.nintendo_logo@ == rom.subrange(0x104, 0x134)
        &&& self.cgb_flag == (rom[0x0143] == 0x80 || rom[0x0143] == 0xC0)
        &&& self.sgb_flag == (rom[0x0146] == 0x03)
        &&& self.licensee == spec_licensee(rom)
        &&& self.title@ == spec_title(rom)
        &&& Some(self.rom_size) == spec_rom_size(rom[0x148])
        &&& self.rom_type == rom[0x147]
        &&& self.rom_type_name == spec_rom_type(rom[0x147])
        &&& self.rom_version == rom[0x14C]
        &&& Some(self.ram_size) == spec_ram_size(rom[0x149])
        &&& self.header_checksum == rom[0x14D]
        &&& self.global_checksum == rom[0x14E] * 256 + rom[0x14F]
    }

    /// Reads the header of a cartridge.
    pub fn load(rom_contents: &Vec<u8>) -> (header: Result<CartridgeHeader, HeaderError>)
        ensures
            match header {
                Ok(h) => header_error(rom_contents@) is None && h.describes(rom_contents@),
                Err(e) => header_error(rom_contents@) == Some(e),
            },
    {
        if rom_contents.len() < HEADER_END {
            return Err(HeaderError::TooShort);
        }
        let rom_size = match CartridgeHeader::get_rom_size(rom_contents) {
            Some(size) => size,
            None => {
                return Err(HeaderError::UnknownRomSize);
            },
        };
        let ram_size = match CartridgeHeader::get_ram_size(rom_contents) {
            Some(size) => size,
            None => {
                return Err(HeaderError::UnknownRamSize);
            },
        };
        let mut nintendo_logo = [0u8;48];
        let mut i: usize = 0;
        while i < 48
            invariant
                i <= 48,
                rom_contents@.len() >= 0x150,
                forall|j: int| 0 <= j < i ==> nintendo_logo@[j] == rom_contents@[0x104 + j],
            decreases 48 - i,
        {
            nintendo_logo[i] = rom_contents[0x104 + i];
            i += 1;
        }
        assert(nintendo_logo@ =~= rom_contents@.subrange(0x104, 0x134));

        Ok(
            CartridgeHeader {
                destination: CartridgeHeader::get_destination(rom_contents),
                nintendo_logo,
                cgb_flag: rom_contents[0x0143] == 0x80 || rom_contents[0x0143] == 0xC0,
                sgb_flag: rom_contents[0x146] == 0x03,
                licensee: CartridgeHeader::get_licensee(rom_contents),
                title: CartridgeHeader::get_game_title(rom_contents),
                rom_size,
                rom_type: rom_contents[0x147],
                rom_type_name: CartridgeHeader::get_rom_type(rom_contents),
                rom_version: rom_contents[0x14C],
                ram_size,
                header_checksum: rom_contents[0x14D],
                global_checksum: CartridgeHeader::get_global_checksum(rom_contents),
            },
        )
    }

    /// Computes the checksum of the header, which a valid header holds at
    /// `0x14D`.
    pub fn checksum(rom_contents: &Vec<u8>) -> (sum: u8)
        requires
            rom_contents@.len() >= 0x14D,
        ensures
            sum == spec_checksum(rom_contents@),
    {
        let mut sum: u8 = 0;
        let mut i: usize = 0x0134;
        while i <= 0x014C
            invariant
                0x134 <= i <= 0x14D,
                rom_contents@.len() >= 0x14D,
                sum == checksum_upto(rom_contents@, i as nat),
            decreases 0x14D - i,
        {
            // Subtraction with overflow is not associative
            sum = sum.wrapping_sub(rom_contents[i]).wrapping_sub(1);
            i += 1;
        }
        sum
    }

    fn get_global_checksum(rom_contents: &Vec<u8>) -> (sum: u16)
        requires
            rom_contents@.len() >= 0x150,
        ensures
            sum == rom_contents@[0x14E] * 256 + rom_contents@[0x14F],
    {
        proof {
            lemma_word_bits();
        }
        (rom_contents[0x14E] as u16) << 8 | (rom_contents[0x14F] as u16)
    }

    fn get_game_title(rom_contents: &Vec<u8>) -> (title: Vec<u8>)
        requires
            rom_contents@.len() >= 0x150,
        ensures
            title@ == spec_title(rom_contents@),
    {
        let mut title: Vec<u8> = Vec::new();
        let mut i: usize = 0;

        while i < 16 && rom_contents[0x134 + i] != 0
            invariant
                i <= 16,
                rom_contents@.len() >= 0x150,
                title@ == rom_contents@.subrange(0x134, 0x134 + i),
                title_length(rom_contents@, 0) == title_length(rom_contents@, i as nat),
            decreases 16 - i,
        {
            title.push(rom_contents[0x134 + i]);
            assert(title@ =~= rom_contents@.subrange(0x134, 0x134 + i + 1));
            i += 1;
        }
        title
    }

    fn get_destination(rom_contents: &Vec<u8>) -> (destination: &'static str)
        requires
            rom_contents@.len() >= 0x150,
        ensures
            destination == spec_destination(rom_contents@[0x014A]),
    {
        if rom_contents[0x014A] == 0 {
            "Japan"
        } else {
            "Overseas"
        }
    }

    fn get_rom_size(rom_contents: &Vec<u8>) -> (size: Option<u32>)
        requires
            rom_contents@.len() >= 0x150,
        ensures
            size == spec_rom_size(rom_contents@[0x148]),
    {
        let size_byte = rom_contents[0x148];
        match size_byte {
            0x00 => Some(32 * 1024),  // 32 KiB, 2 banks (no banking)
            0x01 => Some(64 * 1024),  // 64 KiB, 4 banks
            0x02 => Some(128 * 1024),  // 128 KiB, 8 banks
            0x03 => Some(256 * 1024),  // 256 KiB, 16 banks
            0x04 => Some(512 * 1024),  // 512 KiB, 32 banks
            0x05 => Some(1024 * 1024),  // 1 MiB, 64 banks
            0x06 => Some(2 * 1024 * 1024),  // 2 MiB, 128 banks
            0x07 => Some(4 * 1024 * 1024),  // 4 MiB, 256 banks
            0x08 => Some(8 * 1024 * 1024),  // 8 MiB, 512 banks
            0x52 => Some(1_048_576 + 131_072),  // 1.1 MiB, 72 banks
            0x53 => Some(1_048_576 + 262_144),  // 1.2 MiB, 80 banks
            0x54 => Some(1_048_576 + 524_288),  // 1.5 MiB, 96 banks
            _ => None,
        }
    }

    fn get_ram_size(rom_contents: &Vec<u8>) -> (size: Option<u32>)
        requires
            rom_contents@.len() >= 0x150,
        ensures
            size == spec_ram_size(rom_contents@[0x149]),
    {
        let size_byte = rom_contents[0x149];
        match size_byte {
            0 | 1 => Some(0),
            2 => Some(8 * 1024),  // 1 bank
            3 => Some(32 * 1024),  // 4 banks of 8 KiB each
            4 => Some(128 * 1024),  // 16 banks of 8 KiB each
            5 => Some(64 * 1024),  // 8 banks of 8 KiB each
            _ => None,
        }
    }

    fn get_rom_type(rom_contents: &Vec<u8>) -> (name: &'static str)
        requires
            rom_contents@.len() >= 0x150,
        ensures
            name == spec_rom_type(rom_contents@[0x147]),
    {
        let cartridge_type_byte = rom_contents[0x147];
        match cartridge_type_byte {
            0x00 => "ROM ONLY",
            0x01 => "MBC1",
            0x02 => "MBC1+RAM",
            0x03 => "MBC1+RAM+BATTERY",
            0x05 => "MBC2",
            0x06 => "MBC2+BATTERY",
            0x08 => "ROM+RAM",
            0x09 => "ROM+RAM+BATTERY",
            0x0B => "MMM01",
            0x0C => "MMM01+RAM",
            0x0D => "MMM01+RAM+BATTERY",
            0x0F => "MBC3+TIMER+BATTERY",
            0x10 => "MBC3+TIMER+RAM+BATTERY",
            0x11 => "MBC3",
            0x12 => "MBC3+RAM",
            0x13 => "MBC3+RAM+BATTERY",
            0x19 => "MBC5",
            0x1A => "MBC5+RAM",
            0x1B => "MBC5+RAM+BATTERY",
            0x1C => "MBC5+RUMBLE",
            0x1D => "MBC5+RUMBLE+RAM",
            0x1E => "MBC5+RUMBLE+RAM+BATTERY",
            0x20 => "MBC6",
            0x22 => "MBC7+SENSOR+RUMBLE+RAM+BATTERY",
            0xFC => "POCKET CAMERA",
            0xFD => "BANDAI TAMA5",
            0xFE => "HuC3",
            0xFF => "HuC1+RAM+BATTERY",
            _ => "",
        }
    }

    fn get_licensee(rom_contents: &Vec<u8>) -> (name: &'static str)
        requires
            rom_contents@.len() >= 0x150,
        ensures
            name == spec_licensee(rom_contents@),
    {
        if rom_contents[0x014B] != 0x33 {
            old_licensee(rom_contents[0x014B])
        } else {
            new_licensee(rom_contents[0x144], rom_contents[0x145])
        }
    }
}

/// The publisher by the old licensee code.
fn old_licensee(code: u8) -> (name: &'static str)
    ensures
        name == spec_old_licensee(code),
{
    match code {
        0x00 => "None",
        0x01 => "Nintendo",
        0x08 => "Capcom",
        0x09 => "HOT-B",
        0x0A => "Jaleco",
        0x0B => "Coconuts Japan",
        0x0C => "Elite Systems",
        0x13 => "EA (Electronic Arts)",
        0x18 => "Hudson Soft",
        0x19 => "ITC Entertainment",
        0x1A => "Yanoman",
        0x1D => "Japan Clary",
        0x1F => "Virgin Games Ltd.3",
        0x24 => "PCM Complete",
        0x25 => "San-X",
        0x28 => "Kemco",
        0x29 => "SETA Corporation",
        0x30 => "Infogrames5",
        0x31 => "Nintendo",
        0x32 => "Bandai",
        0x33 => "Indicates that the New licensee code should be used instead.",
        0x34 => "Konami",
        0x35 => "HectorSoft",
        0x38 => "Capcom",
        0x39 => "Banpresto",
        0x3C => "Entertainment Interactive (stub)",
        0x3E => "Gremlin",
        0x41 => "Ubi Soft1",
        0x42 => "Atlus",
        0x44 => "Malibu Interactive",
        0x46 => "Angel",
        0x47 => "Spectrum HoloByte",
        0x49 => "Irem",
        0x4A => "Virgin Games Ltd.3",
        0x4D => "Malibu Interactive",
        0x4F => "U.S. Gold",
        0x50 => "Absolute",
        0x51 => "Acclaim Entertainment",
        0x52 => "Activision",
        0x53 => "Sammy USA Corporation",
        0x54 => "GameTek",
        0x55 => "Park Place13",
        0x56 => "LJN",
        0x57 => "Matchbox",
        0x59 => "Milton Bradley Company",
        0x5A => "Mindscape",
        0x5B => "Romstar",
        0x5C => "Naxat Soft14",
        0x5D => "Tradewest",
        0x60 => "Titus Interactive",
        0x61 => "Virgin Games Ltd.3",
        0x67 => "Ocean Software",
        0x69 => "EA (Electronic Arts)",
        0x6E => "Elite Systems",
        0x6F => "Electro Brain",
        0x70 => "Infogrames5",
        0x71 => "Interplay Entertainment",
        0x72 => "Broderbund",
        0x73 => "Sculptured Software6",
        0x75 => "The Sales Curve Limited7",
        0x78 => "THQ",
        0x79 => "Accolade15",
        0x7A => "Triffix Entertainment",
        0x7C => "MicroProse",
        0x7F => "Kemco",
        0x80 => "Misawa Entertainment",
        0x83 => "LOZC G.",
        0x86 => "Tokuma Shoten",
        0x8B => "Bullet-Proof Software2",
        0x8C => "Vic Tokai Corp.16",
        0x8E => "Ape Inc.17",
        0x8F => "I’Max18",
        0x91 => "Chunsoft Co.8",
        0x92 => "Video System",
        0x93 => "Tsubaraya Productions",
        0x95 => "Varie",
        0x96 => "Yonezawa19/S’Pal",
        0x97 => "Kemco",
        0x99 => "Arc",
        0x9A => "Nihon Bussan",
        0x9B => "Tecmo",
        0x9C => "Imagineer",
        0x9D => "Banpresto",
        0x9F => "Nova",
        0xA1 => "Hori Electric",
        0xA2 => "Bandai",
        0xA4 => "Konami",
        0xA6 => "Kawada",
        0xA7 => "Takara",
        0xA9 => "Technos Japan",
        0xAA => "Broderbund",
        0xAC => "Toei Animation",
        0xAD => "Toho",
        0xAF => "Namco",
        0xB0 => "Acclaim Entertainment",
        0xB1 => "ASCII Corporation or Nexsoft",
        0xB2 => "Bandai",
        0xB4 => "Square Enix",
        0xB6 => "HAL Laboratory",
        0xB7 => "SNK",
        0xB9 => "Pony Canyon",
        0xBA => "Culture Brain",
        0xBB => "Sunsoft",
        0xBD => "Sony Imagesoft",
        0xBF => "Sammy Corporation",
        0xC0 => "Taito",
        0xC2 => "Kemco",
        0xC3 => "Square",
        0xC4 => "Tokuma Shoten",
        0xC5 => "Data East",
        0xC6 => "Tonkin House",
        0xC8 => "Koei",
        0xC9 => "UFL",
        0xCA => "Ultra Games",
        0xCB => "VAP, Inc.",
        0xCC => "Use Corporation",
        0xCD => "Meldac",
        0xCE => "Pony Canyon",
        0xCF => "Angel",
        0xD0 => "Taito",
        0xD1 => "SOFEL (Software Engineering Lab)",
        0xD2 => "Quest",
        0xD3 => "Sigma Enterprises",
        0xD4 => "ASK Kodansha Co.",
        0xD6 => "Naxat Soft14",
        0xD7 => "Copya System",
        0xD9 => "Banpresto",
        0xDA => "Tomy",
        0xDB => "LJN",
        0xDD => "Nippon Computer Systems",
        0xDE => "Human Ent.",
        0xDF => "Altron",
        0xE0 => "Jaleco",
        0xE1 => "Towa Chiki",
        0xE2 => "Yutaka # Needs more info",
        0xE3 => "Varie",
        0xE5 => "Epoch",
        0xE7 => "Athena",
        0xE8 => "Asmik Ace Entertainment",
        0xE9 => "Natsume",
        0xEA => "King Records",
        0xEB => "Atlus",
        0xEC => "Epic/Sony Records",
        0xEE => "IGS",
        0xF0 => "A Wave",
        0xF3 => "Extreme Entertainment",
        0xFF => "LJN",
        _ => "",
    }
}

/// The publisher by the two characters of the new licensee code.
fn new_licensee(first: u8, second: u8) -> (name: &'static str)
    ensures
        name == spec_new_licensee(first, second),
{
    match (first, second) {
        (0x30, 0x30) => "None",
        (0x30, 0x31) => "Nintendo Research & Development 1",
        (0x30, 0x38) => "Capcom",
        (0x31, 0x33) => "EA (Electronic Arts)",
        (0x31, 0x38) => "Hudson Soft",
        (0x31, 0x39) => "B-AI",
        (0x32, 0x30) => "KSS",
        (0x32, 0x32) => "Planning Office WADA",
        (0x32, 0x34) => "PCM Complete",
        (0x32, 0x35) => "San-X",
        (0x32, 0x38) => "Kemco",
        (0x32, 0x39) => "SETA Corporation",
        (0x33, 0x30) => "Viacom",
        (0x33, 0x31) => "Nintendo",
        (0x33, 0x32) => "Bandai",
        (0x33, 0x33) => "Ocean Software/Acclaim Entertainment",
        (0x33, 0x34) => "Konami",
        (0x33, 0x35) => "HectorSoft",
        (0x33, 0x37) => "Taito",
        (0x33, 0x38) => "Hudson Soft",
        (0x33, 0x39) => "Banpresto",
        (0x34, 0x31) => "Ubi Soft1",
        (0x34, 0x32) => "Atlus",
        (0x34, 0x34) => "Malibu Interactive",
        (0x34, 0x36) => "Angel",
        (0x34, 0x37) => "Bullet-Proof Software2",
        (0x34, 0x39) => "Irem",
        (0x35, 0x30) => "Absolute",
        (0x35, 0x31) => "Acclaim Entertainment",
        (0x35, 0x32) => "Activision",
        (0x35, 0x33) => "Sammy USA Corporation",
        (0x35, 0x34) => "Konami",
        (0x35, 0x35) => "Hi Tech Expressions",
        (0x35, 0x36) => "LJN",
        (0x35, 0x37) => "Matchbox",
        (0x35, 0x38) => "Mattel",
        (0x35, 0x39) => "Milton Bradley Company",
        (0x36, 0x30) => "Titus Interactive",
        (0x36, 0x31) => "Virgin Games Ltd.3",
        (0x36, 0x34) => "Lucasfilm Games4",
        (0x36, 0x37) => "Ocean Software",
        (0x36, 0x39) => "EA (Electronic Arts)",
        (0x37, 0x30) => "Infogrames5",
        (0x37, 0x31) => "Interplay Entertainment",
        (0x37, 0x32) => "Broderbund",
        (0x37, 0x33) => "Sculptured Software6",
        (0x37, 0x35) => "The Sales Curve Limited7",
        (0x37, 0x38) => "THQ",
        (0x37, 0x39) => "Accolade",
        (0x38, 0x30) => "Misawa Entertainment",
        (0x38, 0x33) => "lozc",
        (0x38, 0x36) => "Tokuma Shoten",
        (0x38, 0x37) => "Tsukuda Original",
        (0x39, 0x31) => "Chunsoft Co.8",
        (0x39, 0x32) => "Video System",
        (0x39, 0x33) => "Ocean Software/Acclaim Entertainment",
        (0x39, 0x35) => "Varie",
        (0x39, 0x36) => "Yonezawa/s’pal",
        (0x39, 0x37) => "Kaneko",
        (0x39, 0x39) => "Pack-In-Video",
        (0x39, 0x48) => "Bottom Up",
        (0x41, 0x34) => "Konami (Yu-Gi-Oh!)",
        (0x42, 0x4C) => "MTO",
        (0x44, 0x4B) => "Kodansha",
        _ => "",
    }
}

} // verus!
