use aeromod::bgl::airport::{
    calculate_lon_lat, ALTITUDE_SCALE, LATITUDE_SCALE, LONGITUDE_SCALE, NORMALIZATION_FACTOR,
};
use aeromod::bgl::ident::calculate_icao_code;
use aeromod::bgl::kinds::{FSDataType, FSSectType};
use aeromod::bgl::layout::calculate_subsection_header_size;

fn in_alphabet(c: char) -> bool {
    c == ' ' || c == '?' || c.is_ascii_digit() || c.is_ascii_uppercase()
}

#[test]
fn test_calculate_lon_lat() {
    let (encoded_lon, encoded_lat) = (466970081, 145327076);
    let (lon, lat) = calculate_lon_lat(encoded_lon, encoded_lat);
    assert_eq!(lon as f64 / LONGITUDE_SCALE as f64, 28.751893490552902);
    assert_eq!(lat as f64 / LATITUDE_SCALE as f64, 41.275300830602646);
}

#[test]
fn test_calculate_icao_code() {
    let encoded_icao = 0x27e6c41;
    let icao = calculate_icao_code(encoded_icao, true);
    assert_eq!(icao, "LTFM");
}

#[test]
fn lon_lat_units_are_exact() {
    let (lon, lat) = calculate_lon_lat(466970081, 145327076);
    assert_eq!(lon, 964753455);
    assert_eq!(lat, 5539877100);
}

#[test]
fn lon_lat_agree_with_the_floating_point_formula() {
    let n = NORMALIZATION_FACTOR as f64;
    for &(lon_raw, lat_raw) in &[
        (0u32, 0u32),
        (1, 1),
        (466970081, 145327076),
        (0x1000_0000, 0x1000_0000),
        (0x3000_0000, 0x2000_0000),
        (u32::MAX, u32::MAX),
    ] {
        let (lon, lat) = calculate_lon_lat(lon_raw, lat_raw);
        let lon_deg = (lon_raw as f64 * (360.0 / (3.0 * n))) - 180.0;
        let lat_deg = 90.0 - lat_raw as f64 * (180.0 / (2.0 * n));
        assert_eq!(lon as f64 / LONGITUDE_SCALE as f64, lon_deg);
        assert_eq!(lat as f64 / LATITUDE_SCALE as f64, lat_deg);
    }
}

#[test]
fn lon_lat_at_the_ends_of_the_range() {
    assert_eq!(calculate_lon_lat(0, 0), (-180 * LONGITUDE_SCALE, 90 * LATITUDE_SCALE));
    assert_eq!(calculate_lon_lat(0x3000_0000, 0x2000_0000), (180 * LONGITUDE_SCALE, -90 * LATITUDE_SCALE));
    let (lon, lat) = calculate_lon_lat(u32::MAX, u32::MAX);
    assert_eq!(lon, 15 * (u32::MAX as i64) - 180 * LONGITUDE_SCALE);
    assert_eq!(lat, 90 * LATITUDE_SCALE - 45 * (u32::MAX as i64));
    assert_eq!(ALTITUDE_SCALE, 1000);
}

#[test]
fn icao_code_of_zero_is_one_space() {
    assert_eq!(calculate_icao_code(0, true), " ");
    assert_eq!(calculate_icao_code(0, false), " ");
}

#[test]
fn icao_code_of_only_low_bits_is_one_space_when_shifted() {
    assert_eq!(calculate_icao_code(31, true), " ");
    assert_eq!(calculate_icao_code(31, false), "T");
}

#[test]
fn icao_code_shift_drops_five_bits() {
    assert_eq!(calculate_icao_code(0x27e6c41 >> 5, false), "LTFM");
    assert_eq!(calculate_icao_code(0x27e6c41 | 0x1f, true), "LTFM");
}

#[test]
fn icao_code_maps_every_digit() {
    assert_eq!(calculate_icao_code(1, false), "?");
    assert_eq!(calculate_icao_code(2, false), "0");
    assert_eq!(calculate_icao_code(11, false), "9");
    assert_eq!(calculate_icao_code(12, false), "A");
    assert_eq!(calculate_icao_code(37, false), "Z");
    assert_eq!(calculate_icao_code(38, false), "? ");
    assert_eq!(calculate_icao_code(38 * 12 + 1, false), "A?");
    assert_eq!(calculate_icao_code(38 * 38 * 21 + 2, false), "J 0");
}

#[test]
fn icao_code_stays_in_the_alphabet() {
    let mut raw: u32 = 1;
    for step in 0..20000u32 {
        for &shifted in &[true, false] {
            let icao = calculate_icao_code(raw, shifted);
            let count = icao.chars().count();
            assert!(1 <= count && count <= 7);
            assert!(!shifted || count <= 6);
            assert!(icao.chars().all(in_alphabet));
        }
        raw = raw.wrapping_mul(1664525).wrapping_add(1013904223 + step);
    }
    for &raw in &[u32::MAX, 0x8000_0000, 38, 37, 1444, 54872] {
        assert!(calculate_icao_code(raw, true).chars().all(in_alphabet));
        assert!(calculate_icao_code(raw, false).chars().all(in_alphabet));
    }
    assert_eq!(calculate_icao_code(u32::MAX, false).chars().count(), 7);
    assert_eq!(calculate_icao_code(u32::MAX, true).chars().count(), 6);
}

#[test]
fn subsection_stride_follows_bit_16() {
    assert_eq!(calculate_subsection_header_size(0), 16);
    assert_eq!(calculate_subsection_header_size(0x10000), 20);
    assert_eq!(calculate_subsection_header_size(0x40000), 16);
    assert_eq!(calculate_subsection_header_size(0x50000), 20);
    assert_eq!(calculate_subsection_header_size(1), 16);
    assert_eq!(calculate_subsection_header_size(0x2_0000), 16);
    assert_eq!(calculate_subsection_header_size(u32::MAX), 20);
    assert_eq!(calculate_subsection_header_size(u32::MAX & !0x10000), 16);
    assert_eq!(calculate_subsection_header_size(u32::MAX & !0x40000), 20);
}

#[test]
fn subsection_stride_is_the_documented_bit_manipulation() {
    let mut raw: u32 = 7;
    for _ in 0..10000 {
        assert_eq!(calculate_subsection_header_size(raw), ((raw & 0x10000) | 0x40000) >> 14);
        assert_eq!(calculate_subsection_header_size(raw), calculate_subsection_header_size(raw));
        raw = raw.wrapping_mul(22695477).wrapping_add(1);
    }
}

#[test]
fn section_kinds_by_tag() {
    assert_eq!(FSSectType::from(0x3), FSSectType::Airport);
    assert_eq!(FSSectType::from(0x13), FSSectType::VorIls);
    assert_eq!(FSSectType::from(0x17), FSSectType::Ndb);
    assert_eq!(FSSectType::from(0x18), FSSectType::Marker);
    assert_eq!(FSSectType::from(0x20), FSSectType::Boundary);
    assert_eq!(FSSectType::from(0x22), FSSectType::Waypoint);
    assert_eq!(FSSectType::from(0x23), FSSectType::Geopol);
    assert_eq!(FSSectType::from(0x25), FSSectType::SceneryObject);
    assert_eq!(FSSectType::from(0x27), FSSectType::NameList);
    assert_eq!(FSSectType::from(0x28), FSSectType::VorIcaoIndex);
    assert_eq!(FSSectType::from(0x29), FSSectType::NdbIcaoIndex);
    assert_eq!(FSSectType::from(0x2a), FSSectType::WaypointIcaoIndex);
    assert_eq!(FSSectType::from(0x2b), FSSectType::ModelData);
    assert_eq!(FSSectType::from(0x2c), FSSectType::AirportSummary);
    assert_eq!(FSSectType::from(0x2e), FSSectType::ExclusionRectangle);
    assert_eq!(FSSectType::from(0x2f), FSSectType::TimeZone);
    assert_eq!(FSSectType::from(0x30), FSSectType::ModelIndex);
    assert_eq!(FSSectType::from(0x31), FSSectType::LandmarkLocation);
    assert_eq!(FSSectType::from(0x65), FSSectType::CVX);
    assert_eq!(FSSectType::from(0x67), FSSectType::DEM);
    assert_eq!(FSSectType::from(0x68), FSSectType::Landclass);
    assert_eq!(FSSectType::from(0x69), FSSectType::Waterclass);
    assert_eq!(FSSectType::from(0x6a), FSSectType::Regions);
    assert_eq!(FSSectType::from(0x6c), FSSectType::Population);
    assert_eq!(FSSectType::from(0x6f), FSSectType::LCLookup);
    assert_eq!(FSSectType::from(0x78), FSSectType::Seasons);
}

#[test]
fn section_kinds_fall_back_to_undefined() {
    let known = (0u32..0x200).filter(|&t| FSSectType::from(t) != FSSectType::Undefined).count();
    assert_eq!(known, 26);
    assert_eq!(FSSectType::from(0), FSSectType::Undefined);
    assert_eq!(FSSectType::from(0x56), FSSectType::Undefined);
    assert_eq!(FSSectType::from(0x32), FSSectType::Undefined);
    assert_eq!(FSSectType::from(u32::MAX), FSSectType::Undefined);
}

#[test]
fn data_kinds_by_tag() {
    assert_eq!(FSDataType::from(0x56), FSDataType::Airport);
    assert_eq!(FSDataType::from(0x0A), FSDataType::GenericBuilding);
    assert_eq!(FSDataType::from(0x0B), FSDataType::LibraryObject);
    assert_eq!(FSDataType::from(0x0C), FSDataType::Windsock);
    assert_eq!(FSDataType::from(0x0D), FSDataType::Effect);
    assert_eq!(FSDataType::from(0x0E), FSDataType::TaxiwaySign);
    assert_eq!(FSDataType::from(0x10), FSDataType::Trigger);
    assert_eq!(FSDataType::from(0x12), FSDataType::ExtrusionBridge);
    assert_eq!(FSDataType::from(0x13), FSDataType::VorIls);
    assert_eq!(FSDataType::from(0x15), FSDataType::WorldScript);
    assert_eq!(FSDataType::from(0x16), FSDataType::CarParking);
    assert_eq!(FSDataType::from(0x17), FSDataType::Ndb);
    assert_eq!(FSDataType::from(0x18), FSDataType::Marker);
    assert_eq!(FSDataType::from(0x19), FSDataType::SimObject);
    assert_eq!(FSDataType::from(0x20), FSDataType::Boundary);
    assert_eq!(FSDataType::from(0x22), FSDataType::Waypoint);
    assert_eq!(FSDataType::from(0x23), FSDataType::Geopol);
    assert_eq!(FSDataType::from(0x25), FSDataType::SceneryObject);
    assert_eq!(FSDataType::from(0x27), FSDataType::NameList);
    assert_eq!(FSDataType::from(0x28), FSDataType::VorIcaoIndex);
    assert_eq!(FSDataType::from(0x29), FSDataType::NdbIcaoIndex);
    assert_eq!(FSDataType::from(0x2a), FSDataType::WaypointIcaoIndex);
    assert_eq!(FSDataType::from(0x2b), FSDataType::ModelData);
    assert_eq!(FSDataType::from(0x2e), FSDataType::ExclusionRectangle);
    assert_eq!(FSDataType::from(0x2f), FSDataType::TimeZone);
    assert_eq!(FSDataType::from(0x32), FSDataType::AirportSummary);
    assert_eq!(FSDataType::from(0x65), FSDataType::CVX);
    assert_eq!(FSDataType::from(0x67), FSDataType::DEM);
    assert_eq!(FSDataType::from(0x68), FSDataType::Landclass);
    assert_eq!(FSDataType::from(0x69), FSDataType::Waterclass);
    assert_eq!(FSDataType::from(0x6a), FSDataType::Regions);
    assert_eq!(FSDataType::from(0x6c), FSDataType::Population);
    assert_eq!(FSDataType::from(0x6f), FSDataType::LCLookup);
    assert_eq!(FSDataType::from(0x78), FSDataType::Seasons);
    assert_eq!(FSDataType::from(0xDA), FSDataType::DeleteNavigation);
    assert_eq!(FSDataType::from(0xDB), FSDataType::DeleteAirportNavigation);
    assert_eq!(FSDataType::from(0xEA), FSDataType::LandmarkLocation);
}

#[test]
fn data_kinds_fall_back_to_undefined() {
    let known = (0u32..0x200).filter(|&t| FSDataType::from(t) != FSDataType::Undefined).count();
    assert_eq!(known, 37);
    assert_eq!(FSDataType::from(0), FSDataType::Undefined);
    assert_eq!(FSDataType::from(0x3), FSDataType::Undefined);
    assert_eq!(FSDataType::from(0x2c), FSDataType::Undefined);
    assert_eq!(FSDataType::from(u32::MAX), FSDataType::Undefined);
}
