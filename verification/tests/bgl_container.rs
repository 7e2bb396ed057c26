use aeromod::bgl::airport::{parse_airport_record, Airport, ALTITUDE_SCALE, LATITUDE_SCALE, LONGITUDE_SCALE};
use aeromod::bgl::container::{
    decode_record, parse_bgl, parse_bgl_checked, read_header, read_section_header,
    read_subsection_entry, BglObject,
};
use aeromod::bgl::kinds::FSSectType;
use aeromod::bgl::reader::{BglError, ByteReader};

const MAGIC: u32 = 0x1992_0201;
const LTFM: u32 = 0x27e6c41;

fn put_u16(out: &mut Vec<u8>, value: u16) {
    out.push(value as u8);
    out.push((value >> 8) as u8);
}

fn put_u32(out: &mut Vec<u8>, value: u32) {
    out.push(value as u8);
    out.push((value >> 8) as u8);
    out.push((value >> 16) as u8);
    out.push((value >> 24) as u8);
}

fn header(section_count: u32) -> Vec<u8> {
    let mut out = Vec::new();
    put_u32(&mut out, MAGIC);
    put_u32(&mut out, 0x38);
    put_u32(&mut out, 0xAAAA_AAAA);
    put_u32(&mut out, 0xBBBB_BBBB);
    put_u32(&mut out, 0xCCCC_CCCC);
    put_u32(&mut out, section_count);
    for i in 0..32u8 {
        out.push(0xE0 | (i & 0x0F));
    }
    out
}

fn section(out: &mut Vec<u8>, tag: u32, raw_size: u32, count: u32, offset: u32) {
    put_u32(out, tag);
    put_u32(out, raw_size);
    put_u32(out, count);
    put_u32(out, offset);
    put_u32(out, count * 16);
}

fn subsection(out: &mut Vec<u8>, stride: usize, record_count: u32, data_offset: u32) {
    let start = out.len();
    put_u32(out, 0xDEAD_BEEF);
    put_u32(out, record_count);
    put_u32(out, data_offset);
    put_u32(out, 44);
    while out.len() < start + stride {
        out.push(0x77);
    }
}

fn airport(out: &mut Vec<u8>, ident: u32, lon: u32, lat: u32, alt: i32, runways: u8) {
    put_u16(out, 0x56);
    put_u32(out, 44);
    out.push(runways);
    out.extend_from_slice(&[11, 12, 13, 14, 15]);
    put_u32(out, lon);
    put_u32(out, lat);
    put_u32(out, alt as u32);
    put_u32(out, 0x1111_1111);
    put_u32(out, 0x2222_2222);
    put_u32(out, 0x3333_3333);
    put_u32(out, 0x4444_4444);
    put_u32(out, ident);
}

fn minimal_container(tag: u32) -> Vec<u8> {
    let mut out = header(1);
    section(&mut out, tag, 0, 1, 76);
    assert_eq!(out.len(), 76);
    subsection(&mut out, 16, 1, 92);
    assert_eq!(out.len(), 92);
    airport(&mut out, LTFM, 466970081, 145327076, 99_060, 5);
    assert_eq!(out.len(), 136);
    out
}

fn only_airport(objects: Vec<BglObject>) -> Airport {
    assert_eq!(objects.len(), 1);
    match objects.into_iter().next() {
        Some(BglObject::Airport(airport)) => airport,
        None => unreachable!(),
    }
}

#[test]
fn minimal_container_decodes_to_one_airport() {
    let bytes = minimal_container(0x3);
    let airport = only_airport(parse_bgl(&bytes).unwrap());
    assert_eq!(airport.icao, "LTFM");
    assert_eq!(airport.longitude, 964753455);
    assert_eq!(airport.latitude, 5539877100);
    assert_eq!(airport.longitude as f64 / LONGITUDE_SCALE as f64, 28.751893490552902);
    assert_eq!(airport.latitude as f64 / LATITUDE_SCALE as f64, 41.275300830602646);
    assert_eq!(airport.altitude, 99_060);
    assert_eq!(airport.altitude as f64 / ALTITUDE_SCALE as f64, 99.06);
    assert_eq!(airport.runway_count, 5);
}

#[test]
fn negative_altitude_is_read_as_twos_complement() {
    let mut bytes = header(1);
    section(&mut bytes, 0x3, 0, 1, 76);
    subsection(&mut bytes, 16, 1, 92);
    airport(&mut bytes, 0, 0, 0, -1_500, 0);
    let airport = only_airport(parse_bgl(&bytes).unwrap());
    assert_eq!(airport.altitude, -1_500);
    assert_eq!(airport.altitude as f64 / ALTITUDE_SCALE as f64, -1.5);
    assert_eq!(airport.icao, " ");
    assert_eq!(airport.longitude, -180 * LONGITUDE_SCALE);
    assert_eq!(airport.latitude, 90 * LATITUDE_SCALE);
    assert_eq!(airport.runway_count, 0);
}

#[test]
fn little_endian_fields_are_not_read_as_bytes_or_big_endian() {
    let mut bytes = header(1);
    section(&mut bytes, 0x3, 0, 1, 76);
    subsection(&mut bytes, 16, 1, 92);
    airport(&mut bytes, LTFM, 0x0102_0304, 0x0A0B_0C0D, 0x0403_0201, 0xFE);
    let airport = only_airport(parse_bgl(&bytes).unwrap());
    assert_eq!(airport.longitude, 15 * 0x0102_0304 - 180 * LONGITUDE_SCALE);
    assert_eq!(airport.latitude, 90 * LATITUDE_SCALE - 45 * 0x0A0B_0C0D);
    assert_eq!(airport.altitude, 0x0403_0201);
    assert_eq!(airport.runway_count, 0xFE);
}

#[test]
fn unrecognized_section_decodes_to_nothing() {
    let bytes = minimal_container(0x7777);
    assert_eq!(FSSectType::from(0x7777), FSSectType::Undefined);
    assert!(parse_bgl(&bytes).unwrap().is_empty());
}

#[test]
fn known_section_without_decoder_decodes_to_nothing() {
    for &tag in &[0x13u32, 0x17, 0x2c, 0x65, 0x78] {
        let bytes = minimal_container(tag);
        assert!(parse_bgl(&bytes).unwrap().is_empty());
    }
}

#[test]
fn empty_directory_decodes_to_nothing() {
    let bytes = header(0);
    assert_eq!(bytes.len(), 56);
    assert!(parse_bgl(&bytes).unwrap().is_empty());
}

#[test]
fn section_without_subsections_decodes_to_nothing() {
    let mut bytes = header(1);
    section(&mut bytes, 0x3, 0, 0, 0xFFFF_FFFF);
    assert!(parse_bgl(&bytes).unwrap().is_empty());
}

#[test]
fn truncated_header_is_an_error() {
    let bytes = minimal_container(0x3);
    for len in 0..56 {
        assert_eq!(parse_bgl(&bytes[..len]).unwrap_err(), BglError::UnexpectedEof);
    }
    let empty = header(0);
    for len in 0..56 {
        assert_eq!(parse_bgl(&empty[..len]).unwrap_err(), BglError::UnexpectedEof);
    }
}

#[test]
fn every_truncation_of_a_container_is_an_error() {
    let bytes = minimal_container(0x3);
    for len in 0..bytes.len() {
        assert_eq!(parse_bgl(&bytes[..len]).unwrap_err(), BglError::UnexpectedEof);
    }
    assert!(parse_bgl(&bytes).is_ok());
}

#[test]
fn truncated_directory_is_an_error() {
    let mut bytes = header(2);
    section(&mut bytes, 0x7777, 0, 0, 0);
    assert_eq!(parse_bgl(&bytes).unwrap_err(), BglError::UnexpectedEof);
    section(&mut bytes, 0x7777, 0, 0, 0);
    assert!(parse_bgl(&bytes).unwrap().is_empty());
}

#[test]
fn subsection_table_past_the_end_is_an_error() {
    let mut bytes = header(1);
    section(&mut bytes, 0x3, 0, 1, 4000);
    subsection(&mut bytes, 16, 1, 92);
    airport(&mut bytes, LTFM, 1, 2, 3, 4);
    assert_eq!(parse_bgl(&bytes).unwrap_err(), BglError::UnexpectedEof);
}

#[test]
fn subsection_table_past_the_end_is_an_error_in_a_section_without_decoder() {
    let mut bytes = header(1);
    section(&mut bytes, 0x7777, 0, 1, 4000);
    assert_eq!(parse_bgl(&bytes).unwrap_err(), BglError::UnexpectedEof);
    let mut bytes = header(1);
    section(&mut bytes, 0x7777, 0, 2, 76);
    subsection(&mut bytes, 16, 0, 0);
    assert_eq!(parse_bgl(&bytes).unwrap_err(), BglError::UnexpectedEof);
}

#[test]
fn data_offset_past_the_end_is_an_error() {
    let mut bytes = header(1);
    section(&mut bytes, 0x3, 0, 1, 76);
    subsection(&mut bytes, 16, 1, 93);
    airport(&mut bytes, LTFM, 1, 2, 3, 4);
    assert_eq!(parse_bgl(&bytes).unwrap_err(), BglError::UnexpectedEof);
    let mut bytes = header(1);
    section(&mut bytes, 0x3, 0, 1, 76);
    subsection(&mut bytes, 16, 1, 0xFFFF_FFFF);
    airport(&mut bytes, LTFM, 1, 2, 3, 4);
    assert_eq!(parse_bgl(&bytes).unwrap_err(), BglError::UnexpectedEof);
}

#[test]
fn data_offset_past_the_end_is_an_error_in_a_section_without_decoder() {
    for &tag in &[0x13u32, 0x17, 0x78, 0x7777, 0] {
        for &offset in &[1000u32, 0xFFFF_FFFF, 93, 92] {
            let mut bytes = header(1);
            section(&mut bytes, tag, 0, 1, 76);
            subsection(&mut bytes, 16, 1, offset);
            assert_eq!(bytes.len(), 92);
            assert_eq!(parse_bgl(&bytes).unwrap_err(), BglError::UnexpectedEof);
        }
    }
}

#[test]
fn data_offset_within_the_data_is_enough_in_a_section_without_decoder() {
    for &offset in &[0u32, 56, 91] {
        let mut bytes = header(1);
        section(&mut bytes, 0x13, 0, 1, 76);
        subsection(&mut bytes, 16, 1, offset);
        assert!(parse_bgl(&bytes).unwrap().is_empty());
    }
}

#[test]
fn data_offset_past_the_end_in_a_later_section_fails_the_whole_container() {
    let mut bytes = header(2);
    section(&mut bytes, 0x3, 0, 1, 96);
    section(&mut bytes, 0x17, 0, 1, 112);
    assert_eq!(bytes.len(), 96);
    subsection(&mut bytes, 16, 1, 128);
    subsection(&mut bytes, 16, 1, 128 + 44);
    airport(&mut bytes, LTFM, 1, 2, 3, 4);
    assert_eq!(bytes.len(), 172);
    assert_eq!(parse_bgl(&bytes).unwrap_err(), BglError::UnexpectedEof);
    bytes.push(0);
    assert_eq!(parse_bgl(&bytes).unwrap().len(), 1);
}

#[test]
fn an_error_in_a_later_section_leaves_no_partial_list() {
    let mut bytes = header(2);
    section(&mut bytes, 0x3, 0, 1, 96);
    section(&mut bytes, 0x3, 0, 1, 5000);
    assert_eq!(bytes.len(), 96);
    subsection(&mut bytes, 16, 1, 112);
    airport(&mut bytes, LTFM, 1, 2, 3, 4);
    assert_eq!(parse_bgl(&bytes).unwrap_err(), BglError::UnexpectedEof);
}

#[test]
fn wide_subsection_entries_are_walked_by_their_stride() {
    let mut bytes = header(1);
    section(&mut bytes, 0x3, 0x10000, 3, 76);
    subsection(&mut bytes, 20, 9, 136 + 44);
    subsection(&mut bytes, 20, 9, 136);
    subsection(&mut bytes, 20, 9, 136 + 88);
    assert_eq!(bytes.len(), 136);
    airport(&mut bytes, 12 << 5, 10, 20, 1000, 1);
    airport(&mut bytes, 13 << 5, 11, 21, 2000, 2);
    airport(&mut bytes, 14 << 5, 12, 22, 3000, 3);
    let objects = parse_bgl(&bytes).unwrap();
    let found: Vec<(String, i32, u8)> = objects
        .into_iter()
        .map(|o| match o {
            BglObject::Airport(a) => (a.icao, a.altitude, a.runway_count),
        })
        .collect();
    assert_eq!(
        found,
        vec![
            ("B".to_string(), 2000, 2),
            ("A".to_string(), 1000, 1),
            ("C".to_string(), 3000, 3),
        ]
    );
}

#[test]
fn narrow_stride_on_wide_entries_reads_other_offsets() {
    let mut wide = header(1);
    section(&mut wide, 0x3, 0x10000, 2, 76);
    subsection(&mut wide, 20, 1, 116);
    subsection(&mut wide, 20, 0xFFFF_FFF0, 116);
    airport(&mut wide, LTFM, 1, 2, 3, 4);
    assert_eq!(parse_bgl(&wide).unwrap().len(), 2);
    let mut narrow = wide.clone();
    narrow[62] = 0;
    assert_eq!(parse_bgl(&narrow).unwrap_err(), BglError::UnexpectedEof);
    narrow[62] = 4;
    assert_eq!(parse_bgl(&narrow).unwrap_err(), BglError::UnexpectedEof);
    narrow[62] = 5;
    assert_eq!(parse_bgl(&narrow).unwrap().len(), 2);
}

#[test]
fn sections_come_out_in_directory_order() {
    let mut bytes = header(3);
    section(&mut bytes, 0x3, 0, 1, 116);
    section(&mut bytes, 0x17, 0, 1, 132);
    section(&mut bytes, 0x3, 0, 2, 148);
    assert_eq!(bytes.len(), 116);
    subsection(&mut bytes, 16, 1, 180 + 44);
    subsection(&mut bytes, 16, 1, 180);
    subsection(&mut bytes, 16, 1, 180);
    subsection(&mut bytes, 16, 1, 180 + 88);
    assert_eq!(bytes.len(), 180);
    airport(&mut bytes, 12 << 5, 0, 0, 0, 0);
    airport(&mut bytes, 13 << 5, 0, 0, 0, 0);
    airport(&mut bytes, 14 << 5, 0, 0, 0, 0);
    let names: Vec<String> = parse_bgl(&bytes)
        .unwrap()
        .into_iter()
        .map(|o| match o {
            BglObject::Airport(a) => a.icao,
        })
        .collect();
    assert_eq!(names, vec!["B".to_string(), "A".to_string(), "C".to_string()]);
}

#[test]
fn record_count_of_a_subsection_is_not_consulted() {
    let mut bytes = header(1);
    section(&mut bytes, 0x3, 0, 1, 76);
    subsection(&mut bytes, 16, 7, 92);
    airport(&mut bytes, LTFM, 1, 2, 3, 4);
    airport(&mut bytes, LTFM, 1, 2, 3, 4);
    assert_eq!(parse_bgl(&bytes).unwrap().len(), 1);
    let mut bytes = header(1);
    section(&mut bytes, 0x3, 0, 1, 76);
    subsection(&mut bytes, 16, 0, 92);
    airport(&mut bytes, LTFM, 1, 2, 3, 4);
    assert_eq!(parse_bgl(&bytes).unwrap().len(), 1);
}

#[test]
fn any_magic_number_is_accepted() {
    let mut bytes = minimal_container(0x3);
    bytes[0] = 0;
    bytes[1] = 0;
    bytes[2] = 0;
    bytes[3] = 0;
    assert_eq!(parse_bgl(&bytes).unwrap().len(), 1);
}

#[test]
fn checked_decoding_holds_the_magic_number() {
    let bytes = minimal_container(0x3);
    assert_eq!(only_airport(parse_bgl_checked(&bytes, MAGIC).unwrap()).icao, "LTFM");
    assert_eq!(parse_bgl_checked(&bytes, MAGIC + 1).unwrap_err(), BglError::BadMagic);
    assert_eq!(parse_bgl_checked(&bytes[..60], MAGIC + 1).unwrap_err(), BglError::BadMagic);
    assert_eq!(parse_bgl_checked(&bytes[..60], MAGIC).unwrap_err(), BglError::UnexpectedEof);
    assert_eq!(parse_bgl_checked(&bytes[..55], MAGIC).unwrap_err(), BglError::UnexpectedEof);
    assert_eq!(parse_bgl_checked(&bytes[..55], MAGIC + 1).unwrap_err(), BglError::UnexpectedEof);
}

#[test]
fn header_reader_returns_the_three_fields() {
    let bytes = minimal_container(0x3);
    let mut reader = ByteReader::new(&bytes);
    let header = read_header(&mut reader).unwrap();
    assert_eq!(header.magic_number, MAGIC);
    assert_eq!(header.header_size, 0x38);
    assert_eq!(header.section_count, 1);
    assert_eq!(reader.pos, 56);
    let mut short = ByteReader::new(&bytes[..40]);
    assert_eq!(read_header(&mut short).unwrap_err(), BglError::UnexpectedEof);
}

#[test]
fn directory_entry_reader_derives_the_stride() {
    let mut bytes = Vec::new();
    section(&mut bytes, 0x3, 0xFFF1_0000, 9, 1234);
    section(&mut bytes, 0x17, 0xFFF0_FFFF, 2, 99);
    let mut reader = ByteReader::new(&bytes);
    let first = read_section_header(&mut reader).unwrap();
    assert_eq!(
        (first.section_type, first.subsection_size, first.subsection_count, first.subsection_offset),
        (0x3, 20, 9, 1234)
    );
    assert_eq!(first.total_subsection_size, 144);
    assert_eq!(reader.pos, 20);
    let second = read_section_header(&mut reader).unwrap();
    assert_eq!(
        (second.section_type, second.subsection_size, second.subsection_count, second.subsection_offset),
        (0x17, 16, 2, 99)
    );
    assert_eq!(read_section_header(&mut reader).unwrap_err(), BglError::UnexpectedEof);
}

#[test]
fn subsection_entry_reader_skips_the_reserved_word() {
    let mut bytes = vec![0u8; 3];
    subsection(&mut bytes, 16, 5, 0x0A0B_0C0D);
    let mut reader = ByteReader::new(&bytes);
    reader.seek(3);
    let entry = read_subsection_entry(&mut reader).unwrap();
    assert_eq!((entry.record_count, entry.data_offset, entry.data_size), (5, 0x0A0B_0C0D, 44));
    assert_eq!(reader.pos, 19);
    reader.seek(4);
    assert_eq!(read_subsection_entry(&mut reader).unwrap_err(), BglError::UnexpectedEof);
    reader.seek(u64::MAX);
    assert_eq!(read_subsection_entry(&mut reader).unwrap_err(), BglError::UnexpectedEof);
}

#[test]
fn airport_record_reader_moves_past_the_record() {
    let mut bytes = vec![0u8; 5];
    airport(&mut bytes, LTFM, 466970081, 145327076, -7, 3);
    bytes.push(0);
    let mut reader = ByteReader::new(&bytes);
    reader.seek(5);
    let airport = parse_airport_record(&mut reader).unwrap();
    assert_eq!(airport.icao, "LTFM");
    assert_eq!(airport.altitude, -7);
    assert_eq!(airport.runway_count, 3);
    assert_eq!(reader.pos, 49);
    reader.seek(7);
    assert_eq!(parse_airport_record(&mut reader).unwrap_err(), BglError::UnexpectedEof);
    reader.seek(u64::MAX - 3);
    assert_eq!(parse_airport_record(&mut reader).unwrap_err(), BglError::UnexpectedEof);
}

#[test]
fn record_decoder_reads_nothing_without_a_decoder() {
    let bytes = vec![0u8; 4];
    let mut reader = ByteReader::new(&bytes);
    reader.seek(2);
    assert!(decode_record(FSSectType::Ndb, &mut reader).unwrap().is_none());
    assert!(decode_record(FSSectType::Undefined, &mut reader).unwrap().is_none());
    assert_eq!(reader.pos, 2);
    reader.seek(3);
    assert!(decode_record(FSSectType::Ndb, &mut reader).unwrap().is_none());
    reader.seek(4);
    assert_eq!(decode_record(FSSectType::Ndb, &mut reader).unwrap_err(), BglError::UnexpectedEof);
    assert_eq!(decode_record(FSSectType::Undefined, &mut reader).unwrap_err(), BglError::UnexpectedEof);
    reader.seek(u64::MAX);
    assert_eq!(decode_record(FSSectType::Seasons, &mut reader).unwrap_err(), BglError::UnexpectedEof);
    reader.seek(2);
    assert_eq!(decode_record(FSSectType::Airport, &mut reader).unwrap_err(), BglError::UnexpectedEof);
}

#[test]
fn byte_reader_reads_little_endian() {
    let bytes = [0x01u8, 0x02, 0x03, 0x04, 0xFF, 0xFF, 0xFF, 0xFF, 0x80];
    let mut reader = ByteReader::new(&bytes);
    assert_eq!(reader.read_u16().unwrap(), 0x0201);
    reader.seek(0);
    assert_eq!(reader.read_u32().unwrap(), 0x0403_0201);
    assert_eq!(reader.pos, 4);
    assert_eq!(reader.read_i32().unwrap(), -1);
    assert_eq!(reader.read_u8().unwrap(), 0x80);
    assert_eq!(reader.pos, 9);
    assert_eq!(reader.read_u8().unwrap_err(), BglError::UnexpectedEof);
    reader.seek(5);
    assert_eq!(reader.read_i32().unwrap(), 0x80FF_FFFFu32 as i32);
    reader.seek(6);
    assert_eq!(reader.read_u32().unwrap_err(), BglError::UnexpectedEof);
    assert_eq!(reader.read_i32().unwrap_err(), BglError::UnexpectedEof);
    assert_eq!(reader.pos, 6);
    reader.skip(2);
    assert_eq!(reader.read_u16().unwrap_err(), BglError::UnexpectedEof);
    assert_eq!(reader.read_u8().unwrap(), 0x80);
    reader.seek(1 << 40);
    assert_eq!(reader.read_u8().unwrap_err(), BglError::UnexpectedEof);
}
