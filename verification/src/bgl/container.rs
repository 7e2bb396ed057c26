//! The container walker: header, section directory, subsection tables and the
//! records they point at.

use crate::bgl::airport::{
    airport_at, lemma_airport_at_wf, parse_airport_record, Airport, AirportView,
};
use crate::bgl::kinds::{section_kind, FSSectType};
use crate::bgl::layout::{
    calculate_subsection_header_size, lemma_subsection_stride, subsection_stride, AIRPORT_RECORD_LEN, HEADER_LEN,
    SECTION_ENTRY_LEN, SUBSECTION_ENTRY_LEN,
};
use crate::bgl::reader::{le_u32, lemma_len_fits, BglError, ByteReader};
use vstd::prelude::*;

verus! {

/// The decoded fields of the container header.
#[derive(Clone, Copy, Debug, PartialEq, Eq, Structural)]
pub struct ContainerHeader {
    pub magic_number: u32,
    pub header_size: u32,
    pub section_count: u32,
}

/// One entry of the section directory.
#[derive(Clone, Copy, Debug, PartialEq, Eq, Structural)]
pub struct SectionHeader {
    pub section_type: u32,
    /// The stride of the subsection table, already derived from the raw field.
    pub subsection_size: u32,
    pub subsection_count: u32,
    /// Absolute offset of the subsection table.
    pub subsection_offset: u32,
    pub total_subsection_size: u32,
}

/// One entry of a subsection table.
#[derive(Clone, Copy, Debug, PartialEq, Eq, Structural)]
pub struct SubsectionEntry {
    pub record_count: u32,
    /// Absolute offset of the record data.
    pub data_offset: u32,
    pub data_size: u32,
}

/// A decoded object of a container.
#[derive(Debug)]
pub enum BglObject {
    Airport(Airport),
}

/// What a `BglObject` holds, as plain values.
pub enum BglObjectView {
    Airport(AirportView),
}

impl BglObjectView {
    /// What holds of every decoded object.
    pub open spec fn wf(&self) -> bool {
        match self {
            BglObjectView::Airport(airport) => airport.wf(),
        }
    }
}

impl View for BglObject {
    type V = BglObjectView;

    open spec fn view(&self) -> BglObjectView {
        match self {
            BglObject::Airport(airport) => BglObjectView::Airport(airport@),
        }
    }
}

impl DeepView for BglObject {
    type V = BglObjectView;

    open spec fn deep_view(&self) -> BglObjectView {
        self@
    }
}

impl SectionHeader {
    /// The stride is one of the two values that the derivation yields.
    pub open spec fn wf(&self) -> bool {
        self.subsection_size == 16 || self.subsection_size == 20
    }

    /// Absolute position of the `i`-th entry of the subsection table.
    pub open spec fn subsection_pos(&self, i: int) -> int {
        self.subsection_offset + i * self.subsection_size
    }
}

/// The header at the start of the container.
pub open spec fn header_at(s: Seq<u8>) -> ContainerHeader {
    ContainerHeader {
        magic_number: le_u32(s, 0),
        header_size: le_u32(s, 4),
        section_count: le_u32(s, 20),
    }
}

/// The directory entry stored at the absolute position `at`.
pub open spec fn section_entry_at(s: Seq<u8>, at: int) -> SectionHeader {
    SectionHeader {
        section_type: le_u32(s, at),
        subsection_size: subsection_stride(le_u32(s, at + 4)),
        subsection_count: le_u32(s, at + 8),
        subsection_offset: le_u32(s, at + 12),
        total_subsection_size: le_u32(s, at + 16),
    }
}

/// Every directory entry has a stride that the derivation yields.
pub proof fn lemma_section_entry_wf(s: Seq<u8>, at: int)
    ensures
        section_entry_at(s, at).wf(),
{
    lemma_subsection_stride(le_u32(s, at + 4));
}

/// The `k`-th entry of the section directory, which follows the header
/// without a gap.
pub open spec fn section_at(s: Seq<u8>, k: int) -> SectionHeader {
    section_entry_at(s, HEADER_LEN + SECTION_ENTRY_LEN * k)
}

/// The subsection entry stored at the absolute position `at`; its first four
/// bytes are reserved.
pub open spec fn subsection_entry_at(s: Seq<u8>, at: int) -> SubsectionEntry {
    SubsectionEntry {
        record_count: le_u32(s, at + 4),
        data_offset: le_u32(s, at + 8),
        data_size: le_u32(s, at + 12),
    }
}

/// Whether the record of a section of kind `kind` can be reached and read at
/// `at`. The position must lie within the data whatever the kind; an airport
/// section has a record that is read, and all of it must lie there.
pub open spec fn record_readable(s: Seq<u8>, kind: FSSectType, at: int) -> bool {
    if kind == FSSectType::Airport {
        at + AIRPORT_RECORD_LEN <= s.len()
    } else {
        at < s.len()
    }
}

/// The object that the record at `at` of a section of kind `kind` decodes to,
/// if sections of that kind are decoded at all.
pub open spec fn record_at(s: Seq<u8>, kind: FSSectType, at: int) -> Option<BglObjectView> {
    if kind == FSSectType::Airport {
        Some(BglObjectView::Airport(airport_at(s, at)))
    } else {
        None
    }
}

/// Whether the `i`-th subsection of `section` can be read: its table entry
/// lies within the data, its data offset points into the data, and a record
/// that is read lies there as a whole.
pub open spec fn subsection_readable(s: Seq<u8>, section: SectionHeader, i: int) -> bool {
    let at = section.subsection_pos(i);
    &&& at + SUBSECTION_ENTRY_LEN <= s.len()
    &&& record_readable(
        s,
        section_kind(section.section_type),
        subsection_entry_at(s, at).data_offset as int,
    )
}

/// The objects of the `i`-th subsection of `section`: one per subsection of
/// a decoded kind, whatever the entry's record count says.
pub open spec fn subsection_objects(s: Seq<u8>, section: SectionHeader, i: int) -> Seq<
    BglObjectView,
> {
    let entry = subsection_entry_at(s, section.subsection_pos(i));
    match record_at(s, section_kind(section.section_type), entry.data_offset as int) {
        Some(object) => seq![object],
        None => Seq::empty(),
    }
}

/// Whether every subsection of `section` can be read.
pub open spec fn section_readable(s: Seq<u8>, section: SectionHeader) -> bool {
    forall|i: int|
        0 <= i < section.subsection_count ==> #[trigger] subsection_readable(s, section, i)
}

/// The objects of the first `n` subsections of `section`, in table order.
pub open spec fn section_objects(s: Seq<u8>, section: SectionHeader, n: nat) -> Seq<BglObjectView>
    decreases n,
{
    if n == 0 {
        Seq::empty()
    } else {
        section_objects(s, section, (n - 1) as nat) + subsection_objects(s, section, n - 1)
    }
}

/// Whether the header and the whole section directory lie within the data.
pub open spec fn directory_readable(s: Seq<u8>) -> bool {
    &&& HEADER_LEN <= s.len()
    &&& HEADER_LEN + SECTION_ENTRY_LEN * header_at(s).section_count <= s.len()
}

/// Whether the container can be decoded: the header, the directory, every
/// subsection entry and every record that is read lie within the data.
pub open spec fn container_readable(s: Seq<u8>) -> bool {
    &&& directory_readable(s)
    &&& forall|k: int|
        0 <= k < header_at(s).section_count ==> section_readable(s, #[trigger] section_at(s, k))
}

/// The objects of the first `k` sections, in directory order.
pub open spec fn container_objects(s: Seq<u8>, k: nat) -> Seq<BglObjectView>
    decreases k,
{
    if k == 0 {
        Seq::empty()
    } else {
        let section = section_at(s, k - 1);
        container_objects(s, (k - 1) as nat) + section_objects(
            s,
            section,
            section.subsection_count as nat,
        )
    }
}

/// The objects of a container: those of its sections in directory order, and
/// within a section those of its subsections in table order.
pub open spec fn decoded_objects(s: Seq<u8>) -> Seq<BglObjectView> {
    container_objects(s, header_at(s).section_count as nat)
}

/// Two runs of well formed objects make one when joined.
proof fn lemma_concat_wf(head: Seq<BglObjectView>, tail: Seq<BglObjectView>)
    requires
        forall|i: int| 0 <= i < head.len() ==> (#[trigger] head[i]).wf(),
        forall|i: int| 0 <= i < tail.len() ==> (#[trigger] tail[i]).wf(),
    ensures
        forall|i: int| 0 <= i < (head + tail).len() ==> (#[trigger] (head + tail)[i]).wf(),
{
    assert forall|i: int| 0 <= i < (head + tail).len() implies (#[trigger] (head + tail)[i]).wf() by {
        if i < head.len() {
            assert((head + tail)[i] == head[i]);
        } else {
            assert((head + tail)[i] == tail[i - head.len()]);
        }
    }
}

/// Every object of the first `n` subsections of a section is well formed.
pub proof fn lemma_section_objects_wf(s: Seq<u8>, section: SectionHeader, n: nat)
    ensures
        forall|i: int|
            0 <= i < section_objects(s, section, n).len() ==> (#[trigger] section_objects(
                s,
                section,
                n,
            )[i]).wf(),
    decreases n,
{
    if n > 0 {
        lemma_section_objects_wf(s, section, (n - 1) as nat);
        lemma_airport_at_wf(
            s,
            subsection_entry_at(s, section.subsection_pos(n - 1)).data_offset as int,
        );
        let head = section_objects(s, section, (n - 1) as nat);
        let tail = subsection_objects(s, section, n - 1);
        lemma_concat_wf(head, tail);
    }
}

/// Every object of the first `k` sections is well formed.
pub proof fn lemma_container_objects_wf(s: Seq<u8>, k: nat)
    ensures
        forall|i: int|
            0 <= i < container_objects(s, k).len() ==> (#[trigger] container_objects(s, k)[i]).wf(),
    decreases k,
{
    if k > 0 {
        let section = section_at(s, k - 1);
        lemma_container_objects_wf(s, (k - 1) as nat);
        lemma_section_objects_wf(s, section, section.subsection_count as nat);
        let head = container_objects(s, (k - 1) as nat);
        let tail = section_objects(s, section, section.subsection_count as nat);
        lemma_concat_wf(head, tail);
    }
}

/// Whatever bytes a container holds, every object it decodes to is well
/// formed: each identifier is made of the identifier alphabet alone.
pub proof fn lemma_decoded_objects_wf(s: Seq<u8>)
    ensures
        forall|i: int|
            0 <= i < decoded_objects(s).len() ==> (#[trigger] decoded_objects(s)[i]).wf(),
{
    lemma_container_objects_wf(s, header_at(s).section_count as nat);
}

/// A container shorter than its header cannot be decoded.
pub proof fn lemma_truncated_header(s: Seq<u8>)
    requires
        s.len() < HEADER_LEN,
    ensures
        !container_readable(s),
{
}

/// A container whose directory runs past the end of the data cannot be
/// decoded.
pub proof fn lemma_truncated_directory(s: Seq<u8>)
    requires
        HEADER_LEN + SECTION_ENTRY_LEN * header_at(s).section_count > s.len(),
    ensures
        !container_readable(s),
{
}

/// A container cannot be decoded where one subsection entry of one of its
/// sections lies, wholly or in part, past the end of the data, or where the
/// entry of an airport section points at a record that does.
pub proof fn lemma_offset_past_end(s: Seq<u8>, k: int, i: int)
    requires
        0 <= k < header_at(s).section_count,
        0 <= i < section_at(s, k).subsection_count,
        !subsection_readable(s, section_at(s, k), i),
    ensures
        !container_readable(s),
{
}

/// A container cannot be decoded where the data offset of one subsection
/// entry points at or past the end of the data, whatever the kind of its
/// section and whether or not that kind has a decoder.
pub proof fn lemma_data_offset_past_end(s: Seq<u8>, k: int, i: int)
    requires
        0 <= k < header_at(s).section_count,
        0 <= i < section_at(s, k).subsection_count,
        subsection_entry_at(s, section_at(s, k).subsection_pos(i)).data_offset >= s.len(),
    ensures
        !container_readable(s),
{
    assert(!subsection_readable(s, section_at(s, k), i));
}

/// A section of a kind without a decoder yields no object, however many
/// subsections it has.
pub proof fn lemma_section_without_decoder(s: Seq<u8>, section: SectionHeader, n: nat)
    requires
        section_kind(section.section_type) != FSSectType::Airport,
    ensures
        section_objects(s, section, n) == Seq::<BglObjectView>::empty(),
    decreases n,
{
    if n > 0 {
        lemma_section_without_decoder(s, section, (n - 1) as nat);
        assert(section_objects(s, section, (n - 1) as nat) + subsection_objects(s, section, n - 1)
            =~= Seq::<BglObjectView>::empty());
    }
}

/// The first `k` sections yield no object where none of them is of a kind
/// with a decoder.
pub proof fn lemma_sections_without_decoder(s: Seq<u8>, k: nat)
    requires
        forall|j: int|
            0 <= j < k ==> section_kind((#[trigger] section_at(s, j)).section_type)
                != FSSectType::Airport,
    ensures
        container_objects(s, k) == Seq::<BglObjectView>::empty(),
    decreases k,
{
    if k > 0 {
        let section = section_at(s, k - 1);
        lemma_sections_without_decoder(s, (k - 1) as nat);
        lemma_section_without_decoder(s, section, section.subsection_count as nat);
        assert(container_objects(s, (k - 1) as nat) + section_objects(
            s,
            section,
            section.subsection_count as nat,
        ) =~= Seq::<BglObjectView>::empty());
    }
}

/// A container none of whose sections is of a kind with a decoder, be the
/// kind known or not, decodes to no object at all.
pub proof fn lemma_no_section_decoded(s: Seq<u8>)
    requires
        forall|k: int|
            0 <= k < header_at(s).section_count ==> section_kind(
                (#[trigger] section_at(s, k)).section_type,
            ) != FSSectType::Airport,
    ensures
        decoded_objects(s) == Seq::<BglObjectView>::empty(),
{
    lemma_sections_without_decoder(s, header_at(s).section_count as nat);
}

/// A container of one airport section with one subsection decodes to the one
/// airport that the subsection points at.
pub proof fn lemma_single_airport(s: Seq<u8>)
    requires
        header_at(s).section_count == 1,
        section_kind(section_at(s, 0).section_type) == FSSectType::Airport,
        section_at(s, 0).subsection_count == 1,
    ensures
        decoded_objects(s) == seq![
            BglObjectView::Airport(
                airport_at(
                    s,
                    subsection_entry_at(s, section_at(s, 0).subsection_offset as int).data_offset as int,
                ),
            ),
        ],
{
    let section = section_at(s, 0);
    reveal_with_fuel(section_objects, 2);
    reveal_with_fuel(container_objects, 2);
    assert(section.subsection_pos(0) == section.subsection_offset);
    assert(section_objects(s, section, 1) =~= subsection_objects(s, section, 0));
    assert(container_objects(s, 1) =~= section_objects(s, section, 1));
}

/// Reads the container header at the start of the data and moves past it,
/// reserved bytes included. Any magic number is accepted.
pub fn read_header(reader: &mut ByteReader) -> (r: Result<ContainerHeader, BglError>)
    requires
        old(reader).pos == 0,
    ensures
        final(reader).bytes == old(reader).bytes,
        old(reader).has(HEADER_LEN as int) ==> r == Ok::<ContainerHeader, BglError>(
            header_at(old(reader).bytes@),
        ) && final(reader).pos == HEADER_LEN,
        !old(reader).has(HEADER_LEN as int) ==> r == Err::<ContainerHeader, BglError>(
            BglError::UnexpectedEof,
        ),
{
    let magic_number = reader.read_u32()?;
    let header_size = reader.read_u32()?;
    reader.skip(4);
    reader.skip(4);
    reader.skip(4);
    let section_count = reader.read_u32()?;
    reader.skip(32);
    if reader.pos > reader.bytes.len() as u64 {
        return Err(BglError::UnexpectedEof);
    }
    Ok(ContainerHeader { magic_number, header_size, section_count })
}

/// Reads one entry of the section directory and moves past it.
pub fn read_section_header(reader: &mut ByteReader) -> (r: Result<SectionHeader, BglError>)
    ensures
        final(reader).bytes == old(reader).bytes,
        old(reader).has(SECTION_ENTRY_LEN as int) ==> r == Ok::<SectionHeader, BglError>(
            section_entry_at(old(reader).bytes@, old(reader).pos as int),
        ) && final(reader).pos == old(reader).pos + SECTION_ENTRY_LEN,
        !old(reader).has(SECTION_ENTRY_LEN as int) ==> r == Err::<SectionHeader, BglError>(
            BglError::UnexpectedEof,
        ),
        r is Ok ==> r->Ok_0.wf(),
{
    let section_type = reader.read_u32()?;
    let raw_size = reader.read_u32()?;
    let subsection_size = calculate_subsection_header_size(raw_size);
    let subsection_count = reader.read_u32()?;
    let subsection_offset = reader.read_u32()?;
    let total_subsection_size = reader.read_u32()?;
    Ok(
        SectionHeader {
            section_type,
            subsection_size,
            subsection_count,
            subsection_offset,
            total_subsection_size,
        },
    )
}

/// Reads one entry of a subsection table and moves past the part of it that
/// is read.
pub fn read_subsection_entry(reader: &mut ByteReader) -> (r: Result<SubsectionEntry, BglError>)
    ensures
        final(reader).bytes == old(reader).bytes,
        old(reader).has(SUBSECTION_ENTRY_LEN as int) ==> r == Ok::<SubsectionEntry, BglError>(
            subsection_entry_at(old(reader).bytes@, old(reader).pos as int),
        ) && final(reader).pos == old(reader).pos + SUBSECTION_ENTRY_LEN,
        !old(reader).has(SUBSECTION_ENTRY_LEN as int) ==> r == Err::<SubsectionEntry, BglError>(
            BglError::UnexpectedEof,
        ),
{
    proof {
        lemma_len_fits(reader.bytes);
    }
    if reader.pos > u64::MAX - SUBSECTION_ENTRY_LEN {
        return Err(BglError::UnexpectedEof);
    }
    reader.skip(4);
    let record_count = reader.read_u32()?;
    let data_offset = reader.read_u32()?;
    let data_size = reader.read_u32()?;
    Ok(SubsectionEntry { record_count, data_offset, data_size })
}

/// Decodes the record at the reader's position as a section of kind `kind`
/// asks. Kinds without a decoder read nothing and yield no object, but the
/// position must lie within the data for them too.
pub fn decode_record(kind: FSSectType, reader: &mut ByteReader) -> (r: Result<
    Option<BglObject>,
    BglError,
>)
    ensures
        final(reader).bytes == old(reader).bytes,
        record_readable(old(reader).bytes@, kind, old(reader).pos as int) ==> r is Ok
            && r->Ok_0.deep_view() == record_at(old(reader).bytes@, kind, old(reader).pos as int),
        !record_readable(old(reader).bytes@, kind, old(reader).pos as int) ==> r == Err::<
            Option<BglObject>,
            BglError,
        >(BglError::UnexpectedEof),
{
    match kind {
        FSSectType::Airport => {
            let airport = parse_airport_record(reader)?;
            Ok(Some(BglObject::Airport(airport)))
        },
        _ => {
            if reader.pos >= reader.bytes.len() as u64 {
                return Err(BglError::UnexpectedEof);
            }
            Ok(None)
        },
    }
}

/// Reads the `count` entries of the section directory from the reader's
/// position, which is the end of the header.
fn read_sections(reader: &mut ByteReader, count: u32) -> (r: Result<Vec<SectionHeader>, BglError>)
    requires
        old(reader).pos == HEADER_LEN,
        old(reader).has(0),
        count == header_at(old(reader).bytes@).section_count,
    ensures
        final(reader).bytes == old(reader).bytes,
        directory_readable(old(reader).bytes@) ==> r is Ok && r->Ok_0@.len() == count && forall|
            k: int,
        |
            0 <= k < count ==> r->Ok_0@[k] == #[trigger] section_at(old(reader).bytes@, k),
        !directory_readable(old(reader).bytes@) ==> r == Err::<Vec<SectionHeader>, BglError>(
            BglError::UnexpectedEof,
        ),
{
    let mut sections: Vec<SectionHeader> = Vec::new();
    let mut k: u32 = 0;
    while k < count
        invariant
            reader.bytes == old(reader).bytes,
            count == header_at(reader.bytes@).section_count,
            k <= count,
            reader.pos == HEADER_LEN + SECTION_ENTRY_LEN * k,
            reader.has(0),
            sections@.len() == k,
            forall|j: int| 0 <= j < k ==> sections@[j] == #[trigger] section_at(reader.bytes@, j),
        decreases count - k,
    {
        let section = read_section_header(reader)?;
        sections.push(section);
        k = k + 1;
    }
    Ok(sections)
}

/// Walks the subsection table of `section` and appends to `objects` what its
/// records decode to.
fn parse_section(
    reader: &mut ByteReader,
    section: &SectionHeader,
    objects: &mut Vec<BglObject>,
) -> (r: Result<(), BglError>)
    requires
        section.wf(),
    ensures
        final(reader).bytes == old(reader).bytes,
        section_readable(old(reader).bytes@, *section) ==> r is Ok && final(objects).deep_view()
            == old(objects).deep_view() + section_objects(
            old(reader).bytes@,
            *section,
            section.subsection_count as nat,
        ),
        !section_readable(old(reader).bytes@, *section) ==> r == Err::<(), BglError>(
            BglError::UnexpectedEof,
        ),
{
    let kind = FSSectType::from(section.section_type);
    let ghost bytes = reader.bytes@;
    let mut i: u32 = 0;
    while i < section.subsection_count
        invariant
            reader.bytes == old(reader).bytes,
            bytes == reader.bytes@,
            section.wf(),
            kind == section_kind(section.section_type),
            i <= section.subsection_count,
            forall|j: int| 0 <= j < i ==> #[trigger] subsection_readable(bytes, *section, j),
            objects.deep_view() == old(objects).deep_view() + section_objects(
                bytes,
                *section,
                i as nat,
            ),
        decreases section.subsection_count - i,
    {
        assert((i as u64) * (section.subsection_size as u64) <= 0xFFFF_FFFF * 20) by (nonlinear_arith)
            requires
                i <= 0xFFFF_FFFF,
                section.subsection_size <= 20,
        ;
        let subsection_pos: u64 = section.subsection_offset as u64
            + (i as u64) * (section.subsection_size as u64);
        assert(subsection_pos == section.subsection_pos(i as int));
        reader.seek(subsection_pos);
        let entry = match read_subsection_entry(reader) {
            Ok(entry) => entry,
            Err(e) => {
                assert(!subsection_readable(bytes, *section, i as int));
                return Err(e);
            },
        };
        reader.seek(entry.data_offset as u64);
        let ghost before = objects.deep_view();
        match decode_record(kind, reader) {
            Ok(Some(object)) => {
                objects.push(object);
                assert(objects.deep_view() =~= before + seq![object.deep_view()]);
            },
            Ok(None) => {
                assert(before + Seq::<BglObjectView>::empty() =~= before);
            },
            Err(e) => {
                assert(!subsection_readable(bytes, *section, i as int));
                return Err(e);
            },
        }
        assert(objects.deep_view() == before + subsection_objects(bytes, *section, i as int));
        assert(old(objects).deep_view() + section_objects(bytes, *section, i as nat)
            + subsection_objects(bytes, *section, i as int) =~= old(objects).deep_view()
            + section_objects(bytes, *section, (i + 1) as nat));
        i = i + 1;
    }
    Ok(())
}

/// Decodes a container held in memory: reads the header and the section
/// directory, walks every subsection table and decodes the record of each
/// subsection whose section kind has a decoder. Sections of any other kind,
/// known or not, are walked and yield nothing. A field past the end of the
/// data, or a data offset that points at or past the end, fails the whole
/// container, whatever the kind of the section; nothing is returned beside
/// the error.
pub fn parse_bgl(bytes: &[u8]) -> (r: Result<Vec<BglObject>, BglError>)
    ensures
        container_readable(bytes@) ==> r is Ok && r->Ok_0.deep_view() == decoded_objects(bytes@),
        !container_readable(bytes@) ==> r == Err::<Vec<BglObject>, BglError>(
            BglError::UnexpectedEof,
        ),
        r is Ok ==> forall|i: int| 0 <= i < r->Ok_0@.len() ==> (#[trigger] r->Ok_0@[i])@.wf(),
{
    let mut reader = ByteReader::new(bytes);
    let mut bgl_objects: Vec<BglObject> = Vec::new();

    let header = read_header(&mut reader)?;
    let sections = read_sections(&mut reader, header.section_count)?;

    let mut k: usize = 0;
    assert(bgl_objects.deep_view() =~= container_objects(bytes@, 0));
    while k < sections.len()
        invariant
            reader.bytes == bytes,
            directory_readable(bytes@),
            sections@.len() == header_at(bytes@).section_count,
            forall|j: int|
                0 <= j < sections@.len() ==> sections@[j] == #[trigger] section_at(bytes@, j),
            k <= sections@.len(),
            forall|j: int| 0 <= j < k ==> section_readable(bytes@, #[trigger] section_at(bytes@, j)),
            bgl_objects.deep_view() == container_objects(bytes@, k as nat),
        decreases sections@.len() - k,
    {
        let section = sections[k];
        proof {
            assert(section == section_at(bytes@, k as int));
            lemma_section_entry_wf(bytes@, HEADER_LEN + SECTION_ENTRY_LEN * k);
        }
        match parse_section(&mut reader, &section, &mut bgl_objects) {
            Ok(()) => {},
            Err(e) => {
                assert(!section_readable(bytes@, section_at(bytes@, k as int)));
                return Err(e);
            },
        }
        k = k + 1;
    }
    assert forall|i: int| 0 <= i < bgl_objects@.len() implies (#[trigger] bgl_objects@[i])@.wf() by {
        lemma_decoded_objects_wf(bytes@);
        assert(bgl_objects@[i]@ == decoded_objects(bytes@)[i]);
    }
    Ok(bgl_objects)
}

/// Decodes a container as `parse_bgl` does, after holding its magic number
/// against `magic_number`. A container that starts otherwise is refused
/// before its directory is looked at.
pub fn parse_bgl_checked(bytes: &[u8], magic_number: u32) -> (r: Result<Vec<BglObject>, BglError>)
    ensures
        bytes@.len() < HEADER_LEN ==> r == Err::<Vec<BglObject>, BglError>(BglError::UnexpectedEof),
        bytes@.len() >= HEADER_LEN && header_at(bytes@).magic_number != magic_number ==> r == Err::<
            Vec<BglObject>,
            BglError,
        >(BglError::BadMagic),
        header_at(bytes@).magic_number == magic_number && container_readable(bytes@) ==> r is Ok
            && r->Ok_0.deep_view() == decoded_objects(bytes@),
        header_at(bytes@).magic_number == magic_number && !container_readable(bytes@) ==> r == Err::<
            Vec<BglObject>,
            BglError,
        >(BglError::UnexpectedEof),
{
    let mut reader = ByteReader::new(bytes);
    let header = read_header(&mut reader)?;
    if header.magic_number != magic_number {
        return Err(BglError::BadMagic);
    }
    parse_bgl(bytes)
}

} // verus!
