//! Character map tables that are safe to look glyphs up in.
//!
//! A font file is a table directory that lists tables by tag. The table `cmap` lists
//! encodings, each with a subtable. A subtable of format 12 lists groups: a first and a last
//! character and the glyph of the first. The glyph of a character of a group is the glyph of
//! the first plus the distance of the character from the first, in 32 bits. A table is safe
//! where no such sum leaves 32 bits, where the header of each such subtable lies in the
//! file, and where the size of its groups can be counted.

use vstd::prelude::*;

verus! {

/// The tag of the character map table: `cmap`.
pub const CMAP_TAG: u32 = 0x636d_6170;

/// The format of a subtable that lists groups.
pub const FORMAT_GROUPS: u16 = 12;

/// The 16-bit number that is stored at a position, the higher byte first.
pub open spec fn be16(data: Seq<u8>, at: int) -> int {
    data[at] as int * 256 + data[at + 1] as int
}

/// The 32-bit number that is stored at a position, the highest byte first.
pub open spec fn be32(data: Seq<u8>, at: int) -> int {
    be16(data, at) * 65536 + be16(data, at + 2)
}

/// Whether the glyph of every character of a group fits in 32 bits. The groups of a
/// subtable start 16 bytes into it and take 12 bytes each.
pub open spec fn group_is_safe(data: Seq<u8>, subtable: int, group: int) -> bool {
    let record = subtable + 16 + 12 * group;
    let first = be32(data, record);
    let last = be32(data, record + 4);
    let glyph = be32(data, record + 8);
    first <= last ==> last - first + glyph <= u32::MAX
}

/// Whether a subtable is safe. One whose format cannot be read or, taken as a byte, is not
/// 12, is. Else its 16 bytes of header lie in the file, the size of its groups can be
/// counted, and where the groups all lie in the file, each of them is safe.
pub open spec fn subtable_is_safe(data: Seq<u8>, subtable: int) -> bool {
    let groups = be32(data, subtable + 12);
    (0 <= subtable && subtable + 2 <= data.len() && be16(data, subtable) % 256
        == FORMAT_GROUPS as int) ==> {
        &&& subtable + 16 <= data.len()
        &&& groups * 12 <= usize::MAX
        &&& (subtable + 16 < data.len() && data.len() - subtable - 16 >= groups * 12)
            ==> forall|group: int|
            0 <= group < groups ==> #[trigger] group_is_safe(data, subtable, group)
    }
}

/// Whether the subtable of an encoding of a character map table is safe. The encodings of a
/// table start 4 bytes into it and take 8 bytes each, the last 4 of them the offset of the
/// subtable in the table.
pub open spec fn encoding_is_safe(data: Seq<u8>, cmap: int, encoding: int) -> bool {
    let record = cmap + 4 + 8 * encoding;
    record + 8 <= data.len() ==> subtable_is_safe(data, cmap + be32(data, record + 4))
}

/// Whether the subtables of all encodings of a character map table are safe. Their number
/// stands 2 bytes into the table.
pub open spec fn cmap_is_safe(data: Seq<u8>, cmap: int) -> bool {
    (0 <= cmap && cmap + 4 <= data.len()) ==> forall|encoding: int|
        0 <= encoding < be16(data, cmap + 2) ==> #[trigger] encoding_is_safe(data, cmap, encoding)
}

/// Whether a table of a directory is safe: any table but a character map table is. The
/// tables of a directory start 12 bytes into it and take 16 bytes each: the tag, a checksum,
/// the offset of the table in the file, and its length.
pub open spec fn table_is_safe(data: Seq<u8>, directory: int, table: int) -> bool {
    let record = directory + 12 + 16 * table;
    (record + 16 <= data.len() && be32(data, record) == CMAP_TAG as int) ==> cmap_is_safe(
        data,
        be32(data, record + 8),
    )
}

/// Whether every character map table of the font at an offset in a file is safe. The number
/// of the font's tables stands 4 bytes into its directory.
pub open spec fn charmap_is_safe(data: Seq<u8>, offset: u32) -> bool {
    offset + 6 <= data.len() ==> forall|table: int|
        0 <= table < be16(data, offset + 4) ==> #[trigger] table_is_safe(
            data,
            offset as int,
            table,
        )
}

/// Reads a 16-bit number, the higher byte first.
pub fn read_u16(data: &[u8], at: u64) -> (value: u16)
    requires
        at + 2 <= data@.len(),
    ensures
        value == be16(data@, at as int),
{
    let high = data[at as usize] as u16;
    let low = data[(at + 1) as usize] as u16;
    high * 256 + low
}

/// Reads a 32-bit number, the highest byte first.
pub fn read_u32(data: &[u8], at: u64) -> (value: u32)
    requires
        at + 4 <= data@.len(),
    ensures
        value == be32(data@, at as int),
{
    let _ = data.len();
    let high = read_u16(data, at) as u32;
    let low = read_u16(data, at + 2) as u32;
    high * 65536 + low
}

/// Whether the glyph of every character of a group fits in 32 bits.
pub fn group_safe(data: &[u8], subtable: u64, group: u64) -> (safe: bool)
    requires
        subtable + 16 + 12 * (group + 1) <= data@.len(),
    ensures
        safe == group_is_safe(data@, subtable as int, group as int),
{
    let _ = data.len();
    let record = subtable + 16 + 12 * group;
    let first = read_u32(data, record);
    let last = read_u32(data, record + 4);
    let glyph = read_u32(data, record + 8);
    first > last || (last - first) as u64 + glyph as u64 <= u32::MAX as u64
}

/// Whether a subtable is safe.
pub fn subtable_safe(data: &[u8], subtable: u64) -> (safe: bool)
    ensures
        safe == subtable_is_safe(data@, subtable as int),
{
    let len = data.len() as u64;
    if subtable > len || len - subtable < 2 {
        return true;
    }
    if read_u16(data, subtable) % 256 != FORMAT_GROUPS {
        return true;
    }
    if len - subtable < 16 {
        return false;
    }
    let groups = read_u32(data, subtable + 12) as u64;
    if groups * 12 > usize::MAX as u64 {
        return false;
    }
    if len - subtable == 16 || len - subtable - 16 < groups * 12 {
        return true;
    }
    let mut group: u64 = 0;
    while group < groups
        invariant
            group <= groups,
            groups == be32(data@, subtable + 12),
            subtable + 16 + groups * 12 <= data@.len(),
            subtable + 16 < data@.len(),
            be16(data@, subtable as int) % 256 == FORMAT_GROUPS as int,
            forall|earlier: int|
                0 <= earlier < group ==> #[trigger] group_is_safe(data@, subtable as int, earlier),
        decreases groups - group,
    {
        if !group_safe(data, subtable, group) {
            assert(!group_is_safe(data@, subtable as int, group as int));
            return false;
        }
        group += 1;
    }
    true
}

/// Whether the subtables of all encodings of a character map table are safe.
pub fn cmap_safe(data: &[u8], cmap: u32) -> (safe: bool)
    ensures
        safe == cmap_is_safe(data@, cmap as int),
{
    let len = data.len() as u64;
    let table = cmap as u64;
    if table > len || len - table < 4 {
        return true;
    }
    let encodings = read_u16(data, table + 2) as u64;
    let mut encoding: u64 = 0;
    while encoding < encodings
        invariant
            encoding <= encodings,
            encodings == be16(data@, cmap + 2),
            table == cmap,
            len == data@.len(),
            table + 4 <= len,
            forall|earlier: int|
                0 <= earlier < encoding ==> #[trigger] encoding_is_safe(data@, cmap as int, earlier),
        decreases encodings - encoding,
    {
        let record = table + 4 + 8 * encoding;
        if record > len || len - record < 8 {
            assert forall|later: int| encoding <= later < encodings implies #[trigger] encoding_is_safe(
                data@,
                cmap as int,
                later,
            ) by {}
            return true;
        }
        let subtable = table + read_u32(data, record + 4) as u64;
        if !subtable_safe(data, subtable) {
            assert(!encoding_is_safe(data@, cmap as int, encoding as int));
            return false;
        }
        encoding += 1;
    }
    true
}

/// Whether every character map table of the font at an offset in a file is safe.
pub fn charmap_safe(data: &[u8], offset: u32) -> (safe: bool)
    ensures
        safe == charmap_is_safe(data@, offset),
{
    let len = data.len() as u64;
    let directory = offset as u64;
    if directory > len || len - directory < 6 {
        return true;
    }
    let tables = read_u16(data, directory + 4) as u64;
    let mut table: u64 = 0;
    while table < tables
        invariant
            table <= tables,
            tables == be16(data@, offset + 4),
            directory == offset,
            len == data@.len(),
            directory + 6 <= len,
            forall|earlier: int|
                0 <= earlier < table ==> #[trigger] table_is_safe(data@, offset as int, earlier),
        decreases tables - table,
    {
        let record = directory + 12 + 16 * table;
        if record > len || len - record < 16 {
            assert forall|later: int| table <= later < tables implies #[trigger] table_is_safe(
                data@,
                offset as int,
                later,
            ) by {}
            return true;
        }
        if read_u32(data, record) == CMAP_TAG {
            if !cmap_safe(data, read_u32(data, record + 8)) {
                assert(!table_is_safe(data@, offset as int, table as int));
                return false;
            }
        }
        table += 1;
    }
    true
}

} // verus!
