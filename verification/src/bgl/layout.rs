//! Sizes and derived quantities of the on-disk layout.

use vstd::prelude::*;

verus! {

/// Bytes of the container header: magic, header size, three reserved words,
/// the section count and 32 reserved bytes.
pub const HEADER_LEN: u64 = 56;

/// Bytes of one entry of the section directory.
pub const SECTION_ENTRY_LEN: u64 = 20;

/// Bytes of a subsection entry that are read: a reserved word, the record
/// count, the data offset and the data size.
pub const SUBSECTION_ENTRY_LEN: u64 = 16;

/// Bytes of an airport record up to and including its identifier.
pub const AIRPORT_RECORD_LEN: u64 = 44;

/// The stride of a section's subsection table, derived from the raw field of
/// its directory entry: keep bit 16, set bit 18, shift right by 14.
pub open spec fn subsection_stride(raw: u32) -> u32 {
    ((raw & 0x10000) | 0x40000) >> 14
}

/// Whether bit 16 of the raw field, the one bit the stride depends on, is set.
pub open spec fn wide_entries(raw: u32) -> bool {
    (raw / 0x10000) % 2 == 1
}

/// The stride is a function of bit 16 of the raw field alone: 20 when it is
/// set, 16 when it is not, whatever the other bits hold (bit 18 included).
pub proof fn lemma_subsection_stride(raw: u32)
    ensures
        subsection_stride(raw) == if wide_entries(raw) { 20u32 } else { 16u32 },
        wide_entries(raw) <==> raw & 0x10000 != 0,
        subsection_stride(raw) == subsection_stride(raw & 0x10000),
        subsection_stride(raw) == subsection_stride(raw | 0x40000),
        subsection_stride(raw) == subsection_stride(raw & !0x40000u32),
{
    assert(((raw & 0x10000) | 0x40000) >> 14 == if (raw / 0x10000) % 2 == 1 { 20u32 } else { 16u32 })
        by (bit_vector);
    assert(((raw / 0x10000) % 2 == 1) <==> raw & 0x10000 != 0) by (bit_vector);
    assert((((raw & 0x10000) & 0x10000) | 0x40000) >> 14 == ((raw & 0x10000) | 0x40000) >> 14)
        by (bit_vector);
    assert((((raw | 0x40000) & 0x10000) | 0x40000) >> 14 == ((raw & 0x10000) | 0x40000) >> 14)
        by (bit_vector);
    assert((((raw & !0x40000u32) & 0x10000) | 0x40000) >> 14 == ((raw & 0x10000) | 0x40000) >> 14)
        by (bit_vector);
}

/// Derives the byte stride of a subsection table from the raw field of the
/// section's directory entry.
pub fn calculate_subsection_header_size(value: u32) -> (stride: u32)
    ensures
        stride == subsection_stride(value),
        stride == if wide_entries(value) { 20u32 } else { 16u32 },
{
    proof {
        lemma_subsection_stride(value);
    }
    ((value & 0x10000) | 0x40000) >> 0x0E
}

} // verus!
