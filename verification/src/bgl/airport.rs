//! Airport records and the encodings of their fields.

use crate::bgl::ident::{calculate_icao_code, icao_code, is_ident_char, lemma_icao_code_alphabet};
use crate::bgl::layout::AIRPORT_RECORD_LEN;
use crate::bgl::reader::{le_i32, le_u32, lemma_len_fits, BglError, ByteReader};
use vstd::prelude::*;

verus! {

/// The normalisation factor of the angle encoding: a raw angle is a fraction
/// of a circle in units of `1 / 2^28`.
pub const NORMALIZATION_FACTOR: i64 = 0x1000_0000;

/// How many longitude units make one degree.
pub const LONGITUDE_SCALE: i64 = 0x200_0000;

/// How many latitude units make one degree.
pub const LATITUDE_SCALE: i64 = 0x800_0000;

/// How many altitude units make one metre.
pub const ALTITUDE_SCALE: i32 = 1000;

/// The longitude that a raw field encodes, in units of `1 / LONGITUDE_SCALE`
/// of a degree.
pub open spec fn longitude_units(raw: u32) -> int {
    15 * raw - 180 * LONGITUDE_SCALE
}

/// The latitude that a raw field encodes, in units of `1 / LATITUDE_SCALE` of
/// a degree.
pub open spec fn latitude_units(raw: u32) -> int {
    90 * LATITUDE_SCALE - 45 * raw
}

/// The units are exact: as fractions of a degree they are the values of
/// `raw * (360 / (3 * N)) - 180` for the longitude and of
/// `90 - raw * (180 / (2 * N))` for the latitude, with `N` the normalisation
/// factor. Each equation is the formula with both sides multiplied by the
/// scale and by the formula's denominator. A raw value past the nominal range
/// of the encoding is decoded like any other, so the longitude lies in
/// `[-180, 1740)` degrees and the latitude in `(-1350, 90]`.
pub proof fn lemma_coordinate_units(lon_raw: u32, lat_raw: u32)
    ensures
        longitude_units(lon_raw) * (3 * NORMALIZATION_FACTOR) == LONGITUDE_SCALE * (360 * lon_raw
            - 180 * (3 * NORMALIZATION_FACTOR)),
        latitude_units(lat_raw) * (2 * NORMALIZATION_FACTOR) == LATITUDE_SCALE * (90 * (2
            * NORMALIZATION_FACTOR) - 180 * lat_raw),
        -180 * LONGITUDE_SCALE <= longitude_units(lon_raw) < 1740 * LONGITUDE_SCALE,
        -1350 * LATITUDE_SCALE < latitude_units(lat_raw) <= 90 * LATITUDE_SCALE,
{
    let lon = longitude_units(lon_raw);
    let lat = latitude_units(lat_raw);
    assert(lon * 805306368 == 0x200_0000 * (360 * lon_raw - 144955146240));
    assert(lat * 536870912 == 0x800_0000 * (48318382080 - 180 * lat_raw));
}

/// Decodes a pair of raw angles into fixed-point degrees: the longitude in
/// units of `1 / LONGITUDE_SCALE` of a degree, the latitude in units of
/// `1 / LATITUDE_SCALE`. Every raw value is decoded; none is rejected.
pub fn calculate_lon_lat(lon_raw: u32, lat_raw: u32) -> (r: (i64, i64))
    ensures
        r.0 == longitude_units(lon_raw),
        r.1 == latitude_units(lat_raw),
{
    let lon: i64 = 15 * (lon_raw as i64) - 180 * LONGITUDE_SCALE;
    let lat: i64 = 90 * LATITUDE_SCALE - 45 * (lat_raw as i64);
    (lon, lat)
}

/// One airport of a container.
#[derive(Debug)]
pub struct Airport {
    /// The identifier: one to six characters of the identifier alphabet.
    pub icao: String,
    /// Latitude in units of `1 / LATITUDE_SCALE` of a degree, north positive.
    pub latitude: i64,
    /// Longitude in units of `1 / LONGITUDE_SCALE` of a degree, east positive.
    pub longitude: i64,
    /// Altitude in units of `1 / ALTITUDE_SCALE` of a metre.
    pub altitude: i32,
    pub runway_count: u8,
}

/// What an `Airport` holds, as plain values.
pub struct AirportView {
    pub icao: Seq<char>,
    pub latitude: int,
    pub longitude: int,
    pub altitude: int,
    pub runway_count: int,
}

impl AirportView {
    /// What holds of every decoded airport: the identifier has one to six
    /// characters of the identifier alphabet, and the numbers lie in the
    /// ranges that their encodings reach.
    pub open spec fn wf(&self) -> bool {
        &&& 1 <= self.icao.len() <= 6
        &&& forall|i: int| 0 <= i < self.icao.len() ==> is_ident_char(#[trigger] self.icao[i])
        &&& -1350 * LATITUDE_SCALE < self.latitude <= 90 * LATITUDE_SCALE
        &&& -180 * LONGITUDE_SCALE <= self.longitude < 1740 * LONGITUDE_SCALE
        &&& i32::MIN <= self.altitude <= i32::MAX
        &&& 0 <= self.runway_count <= u8::MAX
    }
}

impl View for Airport {
    type V = AirportView;

    open spec fn view(&self) -> AirportView {
        AirportView {
            icao: self.icao@,
            latitude: self.latitude as int,
            longitude: self.longitude as int,
            altitude: self.altitude as int,
            runway_count: self.runway_count as int,
        }
    }
}

impl DeepView for Airport {
    type V = AirportView;

    open spec fn deep_view(&self) -> AirportView {
        self@
    }
}

/// The airport that the record at `at` holds. The record is, in order: record
/// type (2 bytes), record size (4), runway count (1), five counters (1 each),
/// longitude (4), latitude (4), altitude (4), the tower's longitude, latitude
/// and altitude and the magnetic variation (4 each), identifier (4).
pub open spec fn airport_at(s: Seq<u8>, at: int) -> AirportView {
    AirportView {
        icao: icao_code(le_u32(s, at + 40), true),
        latitude: latitude_units(le_u32(s, at + 16)),
        longitude: longitude_units(le_u32(s, at + 12)),
        altitude: le_i32(s, at + 20) as int,
        runway_count: s[at + 6] as int,
    }
}

/// Whatever bytes a record holds, the airport they decode to is well formed.
pub proof fn lemma_airport_at_wf(s: Seq<u8>, at: int)
    ensures
        airport_at(s, at).wf(),
{
    lemma_icao_code_alphabet(le_u32(s, at + 40), true);
    lemma_coordinate_units(le_u32(s, at + 12), le_u32(s, at + 16));
}

/// Reads the airport record at the reader's position. The record's own size
/// field is not held against the bytes consumed.
pub fn parse_airport_record(reader: &mut ByteReader) -> (r: Result<Airport, BglError>)
    ensures
        final(reader).bytes == old(reader).bytes,
        old(reader).has(AIRPORT_RECORD_LEN as int) ==> r is Ok && r->Ok_0@ == airport_at(
            old(reader).bytes@,
            old(reader).pos as int,
        ) && final(reader).pos == old(reader).pos + AIRPORT_RECORD_LEN,
        !old(reader).has(AIRPORT_RECORD_LEN as int) ==> r == Err::<Airport, BglError>(
            BglError::UnexpectedEof,
        ),
        r is Ok ==> r->Ok_0@.wf(),
{
    proof {
        lemma_len_fits(reader.bytes);
        lemma_airport_at_wf(reader.bytes@, reader.pos as int);
    }
    if reader.pos > u64::MAX - AIRPORT_RECORD_LEN {
        return Err(BglError::UnexpectedEof);
    }
    let _record_type = reader.read_u16()?;
    let _record_size = reader.read_u32()?;

    let runway_count = reader.read_u8()?;
    reader.skip(1);  // commCt
    reader.skip(1);  // startCt
    reader.skip(1);  // appCt
    reader.skip(1);  // legacyApronCt
    reader.skip(1);  // helipadCt

    let lon_raw = reader.read_u32()?;
    let lat_raw = reader.read_u32()?;
    let (lon, lat) = calculate_lon_lat(lon_raw, lat_raw);

    let alt_raw = reader.read_i32()?;
    reader.skip(4);  // towerLon
    reader.skip(4);  // towerLat
    reader.skip(4);  // towerAlt
    reader.skip(4);  // magvar

    let ident_raw = reader.read_u32()?;
    let ident = calculate_icao_code(ident_raw, true);

    Ok(Airport { icao: ident, latitude: lat, longitude: lon, altitude: alt_raw, runway_count })
}

} // verus!
