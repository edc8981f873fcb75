use vstd::prelude::*;
use crate::mapper::{board_accepts, lemma_trunc_u8, mmc3_prg_count, Mapper};

verus! {

/// A parsed iNES image: PRG-ROM, CHR-ROM (or 8 KiB of zeroed CHR-RAM) and the header fields.
pub struct Rom {
    pub prg: Vec<u8>,
    pub chr: Vec<u8>,
    pub mapper_id: u8,
    pub mirroring: u8,
    pub has_chr_ram: bool,
}

/// The image starts with a full 16-byte header whose magic is "NES" followed by $1A.
pub open spec fn ines_header_ok(data: Seq<u8>) -> bool {
    data.len() >= 16 && data[0] == 0x4E && data[1] == 0x45 && data[2] == 0x53 && data[3] == 0x1A
}

/// Offset of the PRG data: after the header and the 512-byte trainer when flags 6 bit 2 says so.
pub open spec fn ines_data_start(data: Seq<u8>) -> int {
    if data[6] & 0x04 != 0 { 528 } else { 16 }
}

pub open spec fn ines_prg_size(data: Seq<u8>) -> int {
    data[4] * 0x4000
}

pub open spec fn ines_chr_size(data: Seq<u8>) -> int {
    data[5] * 0x2000
}

/// End of the PRG data: its declared end, or the end of the image when that comes first.
pub open spec fn ines_prg_end(data: Seq<u8>) -> int {
    let e = ines_data_start(data) + ines_prg_size(data);
    if e < data.len() { e } else { data.len() as int }
}

pub open spec fn ines_chr_start(data: Seq<u8>) -> int {
    ines_data_start(data) + ines_prg_size(data)
}

pub open spec fn ines_chr_end(data: Seq<u8>) -> int {
    let e = ines_chr_start(data) + ines_chr_size(data);
    if e < data.len() { e } else { data.len() as int }
}

/// The sections the header declares start within the image: the PRG data (after an
/// optional trainer) and, for a cartridge with CHR-ROM, the CHR data.
pub open spec fn ines_sections_in_image(data: Seq<u8>) -> bool {
    &&& ines_data_start(data) <= data.len()
    &&& data[5] != 0 ==> ines_chr_start(data) <= data.len()
}

/// `rom` is what the iNES image `data` (with a valid header) holds: the board number
/// and mirroring from flags 6 and 7, the PRG data after the header (and trainer),
/// then the CHR data, or 8 KiB of zeroed CHR-RAM when the header declares no CHR-ROM;
/// each section as far as the image holds it.
pub open spec fn ines_parse(data: Seq<u8>, rom: Rom) -> bool {
    &&& rom.mapper_id == (data[7] & 0xF0) | (data[6] >> 4u8)
    &&& rom.mirroring == data[6] & 0x01
    &&& rom.has_chr_ram == (data[5] == 0)
    &&& rom.prg@ == data.subrange(ines_data_start(data), ines_prg_end(data))
    &&& rom.has_chr_ram ==> rom.chr@.len() == 0x2000 && forall|i: int| 0 <= i < 0x2000 ==> rom.chr@[i] == 0
    &&& !rom.has_chr_ram ==> rom.chr@ == data.subrange(ines_chr_start(data), ines_chr_end(data))
}

/// An image that holds everything its header declares keeps every section whole: the
/// `data[4]` 16 KiB PRG banks right after the header (and the 512-byte trainer when
/// flags 6 bit 2 is set), then all `data[5]` 8 KiB CHR banks right after them.
pub proof fn lemma_rom_sections_whole(data: Seq<u8>, rom: Rom)
    requires
        ines_header_ok(data),
        ines_parse(data, rom),
        ({
            let start: int = if data[6] & 0x04 != 0 { 528 } else { 16 };
            start + data[4] * 16384 + data[5] * 8192 <= data.len()
        }),
    ensures
        ({
            let start: int = if data[6] & 0x04 != 0 { 528 } else { 16 };
            let prg_len = data[4] * 16384;
            let chr_len = data[5] * 8192;
            &&& rom.prg@.len() == prg_len
            &&& forall|i: int| 0 <= i < prg_len ==> rom.prg@[i] == data[start + i]
            &&& data[5] > 0 ==> rom.chr@.len() == chr_len
            &&& data[5] > 0 ==> forall|i: int| 0 <= i < chr_len ==> rom.chr@[i] == data[start + prg_len + i]
        }),
{
}

/// The header fields of a parsed image: the board number's low nibble is the high
/// nibble of flags 6 and its high nibble that of flags 7; mirroring is bit 0 of flags
/// 6 (1 for vertical); a header declaring no CHR-ROM gives 8 KiB of zeroed CHR-RAM.
pub proof fn lemma_rom_header_fields(data: Seq<u8>, rom: Rom)
    requires
        ines_header_ok(data),
        ines_parse(data, rom),
    ensures
        rom.mapper_id % 16 == data[6] / 16,
        rom.mapper_id / 16 == data[7] / 16,
        rom.mirroring == data[6] % 2,
        rom.has_chr_ram <==> data[5] == 0,
        data[5] == 0 ==> rom.chr@ == Seq::new(8192, |i: int| 0u8),
{
    let f6 = data[6];
    let f7 = data[7];
    let id = rom.mapper_id;
    assert(id == (f7 & 0xF0) | (f6 >> 4u8) ==> id % 16 == f6 / 16 && id / 16 == f7 / 16) by (bit_vector);
    assert(f6 & 0x01 == f6 % 2) by (bit_vector);
    if data[5] == 0 {
        assert(rom.chr@ =~= Seq::new(8192, |i: int| 0u8));
    }
}

impl Rom {
    /// Parses an iNES image. `None` exactly when the header is missing or its magic is
    /// wrong; otherwise the PRG and CHR sections as far as the image holds them.
    pub fn new(data: &[u8]) -> (r: Option<Self>)
        requires
            ines_header_ok(data@) ==> ines_sections_in_image(data@),
        ensures
            r is None <==> !ines_header_ok(data@),
            r matches Some(rom) ==> ines_parse(data@, rom),
    {
        if data.len() < 16 || data[0] != 0x4E || data[1] != 0x45 || data[2] != 0x53 || data[3] != 0x1A {
            return None;
        }
        let prg_16kb = data[4] as usize;
        let chr_8kb = data[5] as usize;
        let flags6 = data[6];
        let flags7 = data[7];
        let mapper_id = (flags7 & 0xF0) | (flags6 >> 4);
        let mirroring = flags6 & 0x01;
        let has_chr_ram = chr_8kb == 0;

        let prg_size = prg_16kb * 0x4000;
        let header_size: usize = if flags6 & 0x04 != 0 { 16 + 512 } else { 16 };

        let data_start = header_size;
        let data_end = data.len();
        let prg_end = if data_start + prg_size < data_end { data_start + prg_size } else { data_end };

        let prg = vstd::slice::slice_to_vec(vstd::slice::slice_subrange(data, data_start, prg_end));
        let chr: Vec<u8> = if has_chr_ram {
            vec![0u8; 0x2000]
        } else {
            let chr_size = chr_8kb * 0x2000;
            let chr_start = data_start + prg_size;
            let chr_end = if chr_start + chr_size < data_end { chr_start + chr_size } else { data_end };
            vstd::slice::slice_to_vec(vstd::slice::slice_subrange(data, chr_start, chr_end))
        };
        Some(Rom { prg, chr, mapper_id, mirroring, has_chr_ram })
    }

    /// The board for this image, as `Mapper::from_ines` builds it from the header fields.
    pub fn create_mapper(&self) -> (r: Mapper)
        ensures
            r.is_from_ines(self.mapper_id, self.mirroring, self.prg@, self.chr@, self.has_chr_ram),
    {
        Mapper::from_ines(self.mapper_id, self.mirroring, self.prg.as_slice(), self.chr.as_slice(), self.has_chr_ram)
    }
}


impl Rom {
    /// Whether an image with a valid header also holds the start of every section
    /// its header declares (the condition `Rom::new` needs).
    pub fn sections_fit(data: &[u8]) -> (r: bool)
        ensures
            r == (ines_header_ok(data@) ==> ines_sections_in_image(data@)),
    {
        if data.len() < 16 || data[0] != 0x4E || data[1] != 0x45 || data[2] != 0x53 || data[3] != 0x1A {
            return true;
        }
        let start: usize = if data[6] & 0x04 != 0 { 528 } else { 16 };
        if start > data.len() {
            return false;
        }
        if data[5] != 0 {
            let chr_start = start + data[4] as usize * 0x4000;
            return chr_start <= data.len();
        }
        true
    }

    /// Whether the board this image selects can serve every access with these ROM
    /// sizes (the condition for a well-formed board, which the bus needs).
    pub fn board_supported(&self) -> (r: bool)
        ensures
            r == board_accepts(self.mapper_id, self.prg@.len() as int, self.chr@.len() as int, self.has_chr_ram),
    {
        let id = self.mapper_id;
        let prg_len = self.prg.len();
        if id == 1 {
            prg_len == 0 || prg_len >= 0x4000
        } else if id == 2 {
            prg_len >= 0x4000
        } else if id == 3 {
            self.has_chr_ram || self.chr.len() >= 0x2000
        } else if id == 4 {
            let q = prg_len / 0x2000;
            proof {
                lemma_trunc_u8(q);
            }
            #[verifier::truncate]
            let count = q as u8;
            count >= 2
        } else if id == 7 || id == 66 {
            prg_len > 0
        } else {
            true
        }
    }
}

} // verus!
