use vstd::prelude::*;

use crate::memory::locations;

verus! {

/// Whether this version of the game is sold in Japan or elsewhere.
#[derive(Debug, Clone, Copy, PartialEq, Eq, Structural)]
pub enum Destination {
    Japanese,
    NonJapanese,
}

impl Destination {
    pub open spec fn spec_from_code(value: u8) -> Option<Destination> {
        if value == 0x00 {
            Some(Destination::Japanese)
        } else if value == 0x01 {
            Some(Destination::NonJapanese)
        } else {
            None
        }
    }

    /// Decodes the destination byte of the header; other values than 0 and 1 are reserved.
    pub fn from_code(value: u8) -> (r: Option<Destination>)
        ensures
            r == Self::spec_from_code(value),
    {
        match value {
            0x00 => Some(Destination::Japanese),
            0x01 => Some(Destination::NonJapanese),
            _ => None,
        }
    }
}

/// Indicates the mapper present on the cartridge
#[derive(Debug, Clone, Copy, PartialEq, Eq, Structural)]
pub enum CartridgeType {
    RomOnly,
    MBC1,
    MBC2,
    MBC3,
    MBC5,
    NotSupported,
    Unknown,
}

impl CartridgeType {
    pub open spec fn spec_from_code(value: u8) -> CartridgeType {
        if value == 0x00 {
            CartridgeType::RomOnly
        } else if 0x01 <= value <= 0x03 {
            CartridgeType::MBC1
        } else if 0x05 <= value <= 0x06 {
            CartridgeType::MBC2
        } else if 0x0F <= value <= 0x13 {
            CartridgeType::MBC3
        } else if 0x19 <= value <= 0x1E {
            CartridgeType::MBC5
        } else if value == 0x08 || value == 0x09 || value == 0x20 || value == 0x22 || value
            >= 0xFC {
            CartridgeType::NotSupported
        } else {
            CartridgeType::Unknown
        }
    }

    /// Decodes the cartridge type byte of the header.
    pub fn from_code(value: u8) -> (r: CartridgeType)
        ensures
            r == Self::spec_from_code(value),
    {
        match value {
            0x00 => CartridgeType::RomOnly,
            0x01..=0x03 => CartridgeType::MBC1,
            0x05..=0x06 => CartridgeType::MBC2,
            0x0F..=0x13 => CartridgeType::MBC3,
            0x19..=0x1E => CartridgeType::MBC5,
            0x08..=0x09 | 0x20 | 0x22 | 0xFC..=0xFF => CartridgeType::NotSupported,
            _ => CartridgeType::Unknown,
        }
    }
}

/// Rom size, counted in banks of 16 KiB
#[derive(Debug, Clone, Copy, PartialEq, Eq, Structural)]
pub enum RomSize {
    /// No banking
    KiB32,
    KiB64,
    KiB128,
    KiB256,
    KiB512,
    MiB1,
    MiB2,
    MiB4,
    MiB8,
    MiB1Point1,
    MiB1Point2,
    MiB1Point5,
}

impl RomSize {
    pub open spec fn spec_from_code(value: u8) -> Option<RomSize> {
        if value == 0x00 {
            Some(RomSize::KiB32)
        } else if value == 0x01 {
            Some(RomSize::KiB64)
        } else if value == 0x02 {
            Some(RomSize::KiB128)
        } else if value == 0x03 {
            Some(RomSize::KiB256)
        } else if value == 0x04 {
            Some(RomSize::KiB512)
        } else if value == 0x05 {
            Some(RomSize::MiB1)
        } else if value == 0x06 {
            Some(RomSize::MiB2)
        } else if value == 0x07 {
            Some(RomSize::MiB4)
        } else if value == 0x08 {
            Some(RomSize::MiB8)
        } else if value == 0x52 {
            Some(RomSize::MiB1Point1)
        } else if value == 0x53 {
            Some(RomSize::MiB1Point2)
        } else if value == 0x54 {
            Some(RomSize::MiB1Point5)
        } else {
            None
        }
    }

    /// Decodes the ROM size byte of the header; unlisted codes are reserved.
    pub fn from_code(value: u8) -> (r: Option<RomSize>)
        ensures
            r == Self::spec_from_code(value),
    {
        match value {
            0x00 => Some(RomSize::KiB32),
            0x01 => Some(RomSize::KiB64),
            0x02 => Some(RomSize::KiB128),
            0x03 => Some(RomSize::KiB256),
            0x04 => Some(RomSize::KiB512),
            0x05 => Some(RomSize::MiB1),
            0x06 => Some(RomSize::MiB2),
            0x07 => Some(RomSize::MiB4),
            0x08 => Some(RomSize::MiB8),
            0x52 => Some(RomSize::MiB1Point1),
            0x53 => Some(RomSize::MiB1Point2),
            0x54 => Some(RomSize::MiB1Point5),
            _ => None,
        }
    }

    pub open spec fn spec_banks(self) -> u32 {
        match self {
            RomSize::KiB32 => 0x02,
            RomSize::KiB64 => 0x04,
            RomSize::KiB128 => 0x08,
            RomSize::KiB256 => 0x10,
            RomSize::KiB512 => 0x20,
            RomSize::MiB1 => 0x40,
            RomSize::MiB2 => 0x80,
            RomSize::MiB4 => 0x100,
            RomSize::MiB8 => 0x200,
            RomSize::MiB1Point1 => 0x48,
            RomSize::MiB1Point2 => 0x50,
            RomSize::MiB1Point5 => 0x60,
        }
    }

    /// Number of 16 KiB banks.
    #[verifier::when_used_as_spec(spec_banks)]
    pub fn banks(self) -> (r: u32)
        ensures
            r == self.spec_banks(),
    {
        match self {
            RomSize::KiB32 => 0x02,
            RomSize::KiB64 => 0x04,
            RomSize::KiB128 => 0x08,
            RomSize::KiB256 => 0x10,
            RomSize::KiB512 => 0x20,
            RomSize::MiB1 => 0x40,
            RomSize::MiB2 => 0x80,
            RomSize::MiB4 => 0x100,
            RomSize::MiB8 => 0x200,
            RomSize::MiB1Point1 => 0x48,
            RomSize::MiB1Point2 => 0x50,
            RomSize::MiB1Point5 => 0x60,
        }
    }
}

/// Ram size, counted in banks of 8 KiB
#[derive(Debug, Clone, Copy, PartialEq, Eq, Structural)]
pub enum RamSize {
    NoRam,
    KiB8,
    KiB32,
    KiB128,
    KiB64,
}

impl RamSize {
    pub open spec fn spec_from_code(value: u8) -> Option<RamSize> {
        if value == 0x00 {
            Some(RamSize::NoRam)
        } else if value == 0x02 {
            Some(RamSize::KiB8)
        } else if value == 0x03 {
            Some(RamSize::KiB32)
        } else if value == 0x04 {
            Some(RamSize::KiB128)
        } else if value == 0x05 {
            Some(RamSize::KiB64)
        } else {
            None
        }
    }

    /// Decodes the RAM size byte of the header; unlisted codes are reserved.
    pub fn from_code(value: u8) -> (r: Option<RamSize>)
        ensures
            r == Self::spec_from_code(value),
    {
        match value {
            0x00 => Some(RamSize::NoRam),
            0x02 => Some(RamSize::KiB8),
            0x03 => Some(RamSize::KiB32),
            0x04 => Some(RamSize::KiB128),
            0x05 => Some(RamSize::KiB64),
            _ => None,
        }
    }

    pub open spec fn spec_banks(self) -> u32 {
        match self {
            RamSize::NoRam => 0x00,
            RamSize::KiB8 => 0x01,
            RamSize::KiB32 => 0x04,
            RamSize::KiB128 => 0x10,
            RamSize::KiB64 => 0x08,
        }
    }

    /// Number of 8 KiB banks.
    #[verifier::when_used_as_spec(spec_banks)]
    pub fn banks(self) -> (r: u32)
        ensures
            r == self.spec_banks(),
    {
        match self {
            RamSize::NoRam => 0x00,
            RamSize::KiB8 => 0x01,
            RamSize::KiB32 => 0x04,
            RamSize::KiB128 => 0x10,
            RamSize::KiB64 => 0x08,
        }
    }
}

/// Why a cartridge image cannot be booted.
#[derive(Debug, Clone, Copy, PartialEq, Eq, Structural)]
pub enum CartridgeError {
    /// The image is too short, a header field holds a reserved value, the declared
    /// sizes exceed the supported bank counts, or the image length differs from
    /// the declared ROM size.
    InvalidCartridge,
    /// The mapper is one that this emulator does not handle.
    UnsupportedMbc,
}

#[derive(Debug, Clone)]
pub struct CartridgeHeader {
    /// Title of the game in uppercase ASCII
    pub title: String,
    /// Game supports Color-Mode
    pub color: bool,
    /// Game supports SGB functions
    pub sgb: bool,
    /// Indicates what kind of hardware is present on the cartridge (notably the mapper).
    pub cart_type: CartridgeType,
    /// How much ROM is present on the cartridge.
    pub rom_size: RomSize,
    /// How much RAM is present on the cartridge.
    pub ram_size: RamSize,
    /// Indicates whether this version of the game is intended to be sold in Japan or elsewhere.
    pub destination: Destination,
    pub version: u8,
    pub header_checksum: u8,
    pub global_checksum: u16,
}

/// Whitespace as `str::trim` sees it, restricted to ASCII.
pub open spec fn is_ascii_space(b: u8) -> bool {
    b == 0x20 || (0x09 <= b <= 0x0D)
}

pub open spec fn trim_start(s: Seq<u8>) -> Seq<u8>
    decreases s.len(),
{
    if s.len() > 0 && is_ascii_space(s[0]) {
        trim_start(s.subrange(1, s.len() as int))
    } else {
        s
    }
}

pub open spec fn trim_end(s: Seq<u8>) -> Seq<u8>
    decreases s.len(),
{
    if s.len() > 0 && is_ascii_space(s[s.len() - 1]) {
        trim_end(s.subrange(0, s.len() - 1))
    } else {
        s
    }
}

pub open spec fn is_ascii_bytes(s: Seq<u8>) -> bool {
    forall|i: int| 0 <= i < s.len() ==> s[i] < 0x80
}

pub open spec fn ascii_chars(s: Seq<u8>) -> Seq<char> {
    Seq::new(s.len(), |i: int| s[i] as char)
}

/// The newer header layout is marked by 0x33 in the old licensee code.
pub open spec fn is_newer_header(b: Seq<u8>) -> bool {
    b[locations::LICENSEE_CODE_OLDER as int] == 0x33
}

/// The raw title field: 11 bytes in the newer layout, 16 in the older one.
pub open spec fn title_field(b: Seq<u8>) -> Seq<u8> {
    let len = if is_newer_header(b) {
        locations::GAME_TITLE_LEN
    } else {
        locations::GAME_TITLE_OLDER_LEN
    };
    b.subrange(locations::GAME_TITLE_START as int, locations::GAME_TITLE_START + len)
}

/// The header can be decoded: it is long enough and no decoded field holds a reserved value.
pub open spec fn header_ok(b: Seq<u8>) -> bool {
    &&& b.len() >= locations::HEADER_END
    &&& RomSize::spec_from_code(b[locations::ROM_SIZE as int]) is Some
    &&& RamSize::spec_from_code(b[locations::RAM_SIZE as int]) is Some
    &&& Destination::spec_from_code(b[locations::DESTINATION_CODE as int]) is Some
}

/// What the header of `b` decodes to, title aside.
pub open spec fn header_fields_match(h: CartridgeHeader, b: Seq<u8>) -> bool {
    &&& h.color == (b[locations::COLOR_INDICATOR as int] == 0x80)
    &&& h.sgb == (b[locations::GB_SGB_INDICATOR as int] == 0x03)
    &&& h.cart_type == CartridgeType::spec_from_code(b[locations::CARTRIDGE_TYPE as int])
    &&& Some(h.rom_size) == RomSize::spec_from_code(b[locations::ROM_SIZE as int])
    &&& Some(h.ram_size) == RamSize::spec_from_code(b[locations::RAM_SIZE as int])
    &&& Some(h.destination) == Destination::spec_from_code(
        b[locations::DESTINATION_CODE as int],
    )
    &&& h.version == b[locations::MASK_ROM_VERSION_NUMBER as int]
    &&& h.header_checksum == b[locations::COMPLEMENT_CHECK as int]
    &&& h.global_checksum == b[locations::CHECKSUM_HI as int] as int * 256
        + b[locations::CHECKSUM_LO as int] as int
}

/// The title as stored: the title field without surrounding whitespace.
pub open spec fn spec_title(b: Seq<u8>) -> Seq<u8> {
    trim_end(trim_start(title_field(b)))
}

/// Sum of the bytes of `b` in `lo..hi`.
pub open spec fn byte_sum(b: Seq<u8>, lo: int, hi: int) -> int
    decreases hi - lo,
{
    if lo >= hi {
        0
    } else {
        b[lo] as int + byte_sum(b, lo + 1, hi)
    }
}

/// The header bytes from the title to the version, plus the header checksum byte,
/// sum to a multiple of 256.
pub open spec fn checksum_holds(b: Seq<u8>) -> bool {
    (byte_sum(b, locations::GAME_TITLE_START as int, locations::COMPLEMENT_CHECK as int)
        + b[locations::COMPLEMENT_CHECK as int]) % 256 == 0
}

/// A header whose checksum holds decodes, as long as it is complete and its size and
/// destination codes are not reserved ones.
pub proof fn lemma_checksummed_header_decodes(b: Seq<u8>)
    requires
        b.len() >= locations::HEADER_END,
        checksum_holds(b),
        RomSize::spec_from_code(b[locations::ROM_SIZE as int]) is Some,
        RamSize::spec_from_code(b[locations::RAM_SIZE as int]) is Some,
        Destination::spec_from_code(b[locations::DESTINATION_CODE as int]) is Some,
    ensures
        header_ok(b),
{
}

/// Relies on String::from_utf8: bytes that are all ASCII are valid UTF-8 and become
/// the characters of the same codes.
#[verifier::external_body]
fn string_from_utf8(bytes: Vec<u8>) -> (r: Option<String>)
    ensures
        is_ascii_bytes(bytes@) ==> r is Some && r->Some_0@ == ascii_chars(bytes@),
{
    String::from_utf8(bytes).ok()
}

/// Removes the ASCII whitespace at both ends of `s`.
fn trim_ascii(s: &[u8]) -> (r: Vec<u8>)
    ensures
        r@ == trim_end(trim_start(s@)),
{
    let n = s.len();
    let mut start: usize = 0;
    assert(s@.subrange(0, n as int) =~= s@);
    while start < n && (s[start] == 0x20 || (0x09 <= s[start] && s[start] <= 0x0D))
        invariant
            n == s@.len(),
            start <= n,
            trim_start(s@.subrange(start as int, n as int)) == trim_start(s@),
        decreases n - start,
    {
        let ghost sub = s@.subrange(start as int, n as int);
        assert(sub.subrange(1, sub.len() as int) =~= s@.subrange(start + 1, n as int));
        start = start + 1;
    }
    assert(trim_start(s@) == s@.subrange(start as int, n as int));
    let mut end: usize = n;
    while end > start && (s[end - 1] == 0x20 || (0x09 <= s[end - 1] && s[end - 1] <= 0x0D))
        invariant
            n == s@.len(),
            start <= end <= n,
            trim_end(s@.subrange(start as int, end as int)) == trim_end(
                s@.subrange(start as int, n as int),
            ),
        decreases end - start,
    {
        let ghost sub = s@.subrange(start as int, end as int);
        assert(sub.subrange(0, sub.len() - 1) =~= s@.subrange(start as int, end - 1));
        end = end - 1;
    }
    let mut r: Vec<u8> = Vec::new();
    let mut i: usize = start;
    while i < end
        invariant
            n == s@.len(),
            start <= i <= end <= n,
            r@ =~= s@.subrange(start as int, i as int),
        decreases end - i,
    {
        r.push(s[i]);
        i = i + 1;
    }
    r
}

/// Decodes the title: trimmed ASCII, or "Unknown" where the field is not UTF-8.
fn decode_title(value: &[u8]) -> (r: String)
    requires
        value@.len() >= locations::HEADER_END,
    ensures
        is_ascii_bytes(spec_title(value@)) ==> r@ == ascii_chars(spec_title(value@)),
{
    let len = if value[locations::LICENSEE_CODE_OLDER] == 0x33 {
        locations::GAME_TITLE_LEN
    } else {
        locations::GAME_TITLE_OLDER_LEN
    };
    let mut field: Vec<u8> = Vec::new();
    let mut i: usize = 0;
    while i < len
        invariant
            value@.len() >= locations::HEADER_END,
            len == locations::GAME_TITLE_LEN || len == locations::GAME_TITLE_OLDER_LEN,
            i <= len,
            field@ =~= value@.subrange(
                locations::GAME_TITLE_START as int,
                locations::GAME_TITLE_START + i,
            ),
        decreases len - i,
    {
        field.push(value[locations::GAME_TITLE_START + i]);
        i = i + 1;
    }
    assert(field@ == title_field(value@));
    let trimmed = trim_ascii(field.as_slice());
    match string_from_utf8(trimmed) {
        Some(s) => s,
        None => "Unknown".to_owned(),
    }
}

impl CartridgeHeader {
    /// Decodes the header of a cartridge image.
    ///
    /// Fails with `InvalidCartridge` when the image is shorter than the header or the
    /// ROM size, RAM size or destination byte holds a reserved value.
    pub fn parse(value: &[u8]) -> (r: Result<CartridgeHeader, CartridgeError>)
        ensures
            r is Ok <==> header_ok(value@),
            r is Err ==> r == Err::<CartridgeHeader, CartridgeError>(
                CartridgeError::InvalidCartridge,
            ),
            r is Ok ==> header_fields_match(r->Ok_0, value@),
            r is Ok && is_ascii_bytes(spec_title(value@)) ==> r->Ok_0.title@ == ascii_chars(
                spec_title(value@),
            ),
    {
        if value.len() < locations::HEADER_END {
            return Err(CartridgeError::InvalidCartridge);
        }
        let rom_size = match RomSize::from_code(value[locations::ROM_SIZE]) {
            Some(s) => s,
            None => return Err(CartridgeError::InvalidCartridge),
        };
        let ram_size = match RamSize::from_code(value[locations::RAM_SIZE]) {
            Some(s) => s,
            None => return Err(CartridgeError::InvalidCartridge),
        };
        let destination = match Destination::from_code(value[locations::DESTINATION_CODE]) {
            Some(d) => d,
            None => return Err(CartridgeError::InvalidCartridge),
        };
        Ok(
            CartridgeHeader {
                title: decode_title(value),
                color: value[locations::COLOR_INDICATOR] == 0x80,
                sgb: value[locations::GB_SGB_INDICATOR] == 0x03,
                cart_type: CartridgeType::from_code(value[locations::CARTRIDGE_TYPE]),
                rom_size,
                ram_size,
                destination,
                version: value[locations::MASK_ROM_VERSION_NUMBER],
                header_checksum: value[locations::COMPLEMENT_CHECK],
                global_checksum: (value[locations::CHECKSUM_HI] as u16) * 256
                    + value[locations::CHECKSUM_LO] as u16,
            },
        )
    }
}

} // verus!
