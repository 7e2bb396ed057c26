//! The two tag tables of the format: section kinds and record kinds.

use vstd::prelude::*;
use vstd::std_specs::convert::FromSpecImpl;

verus! {

/// Kind of a top-level section, as named by the tag in its directory entry.
#[derive(Clone, Copy, Debug, PartialEq, Eq, Structural)]
pub enum FSSectType {
    Undefined,
    Airport,
    VorIls,
    Ndb,
    Marker,
    Boundary,
    Waypoint,
    Geopol,
    SceneryObject,
    NameList,
    VorIcaoIndex,
    NdbIcaoIndex,
    WaypointIcaoIndex,
    ModelData,
    AirportSummary,
    ExclusionRectangle,
    TimeZone,
    ModelIndex,
    LandmarkLocation,
    CVX,
    DEM,
    Landclass,
    Waterclass,
    Regions,
    Population,
    LCLookup,
    Seasons,
}

/// The section kind that a directory tag stands for; `Undefined` for every
/// tag outside the table.
pub open spec fn section_kind(tag: u32) -> FSSectType {
    if tag == 0x3 {
        FSSectType::Airport
    } else if tag == 0x13 {
        FSSectType::VorIls
    } else if tag == 0x17 {
        FSSectType::Ndb
    } else if tag == 0x18 {
        FSSectType::Marker
    } else if tag == 0x20 {
        FSSectType::Boundary
    } else if tag == 0x22 {
        FSSectType::Waypoint
    } else if tag == 0x23 {
        FSSectType::Geopol
    } else if tag == 0x25 {
        FSSectType::SceneryObject
    } else if tag == 0x27 {
        FSSectType::NameList
    } else if tag == 0x28 {
        FSSectType::VorIcaoIndex
    } else if tag == 0x29 {
        FSSectType::NdbIcaoIndex
    } else if tag == 0x2a {
        FSSectType::WaypointIcaoIndex
    } else if tag == 0x2b {
        FSSectType::ModelData
    } else if tag == 0x2c {
        FSSectType::AirportSummary
    } else if tag == 0x2e {
        FSSectType::ExclusionRectangle
    } else if tag == 0x2f {
        FSSectType::TimeZone
    } else if tag == 0x30 {
        FSSectType::ModelIndex
    } else if tag == 0x31 {
        FSSectType::LandmarkLocation
    } else if tag == 0x65 {
        FSSectType::CVX
    } else if tag == 0x67 {
        FSSectType::DEM
    } else if tag == 0x68 {
        FSSectType::Landclass
    } else if tag == 0x69 {
        FSSectType::Waterclass
    } else if tag == 0x6a {
        FSSectType::Regions
    } else if tag == 0x6c {
        FSSectType::Population
    } else if tag == 0x6f {
        FSSectType::LCLookup
    } else if tag == 0x78 {
        FSSectType::Seasons
    } else {
        FSSectType::Undefined
    }
}

impl From<u32> for FSSectType {
    fn from(value: u32) -> (kind: FSSectType) {
        match value {
            0x3 => FSSectType::Airport,
            0x13 => FSSectType::VorIls,
            0x17 => FSSectType::Ndb,
            0x18 => FSSectType::Marker,
            0x20 => FSSectType::Boundary,
            0x22 => FSSectType::Waypoint,
            0x23 => FSSectType::Geopol,
            0x25 => FSSectType::SceneryObject,
            0x27 => FSSectType::NameList,
            0x28 => FSSectType::VorIcaoIndex,
            0x29 => FSSectType::NdbIcaoIndex,
            0x2a => FSSectType::WaypointIcaoIndex,
            0x2b => FSSectType::ModelData,
            0x2c => FSSectType::AirportSummary,
            0x2e => FSSectType::ExclusionRectangle,
            0x2f => FSSectType::TimeZone,
            0x30 => FSSectType::ModelIndex,
            0x31 => FSSectType::LandmarkLocation,
            0x65 => FSSectType::CVX,
            0x67 => FSSectType::DEM,
            0x68 => FSSectType::Landclass,
            0x69 => FSSectType::Waterclass,
            0x6a => FSSectType::Regions,
            0x6c => FSSectType::Population,
            0x6f => FSSectType::LCLookup,
            0x78 => FSSectType::Seasons,
            _ => FSSectType::Undefined,
        }
    }
}

impl FromSpecImpl<u32> for FSSectType {
    open spec fn obeys_from_spec() -> bool {
        true
    }

    open spec fn from_spec(v: u32) -> FSSectType {
        section_kind(v)
    }
}

/// No two tags share a section kind: a kind other than `Undefined` names the
/// one tag it was decoded from.
pub proof fn lemma_section_kind_injective(a: u32, b: u32)
    requires
        section_kind(a) == section_kind(b),
        section_kind(a) != FSSectType::Undefined,
    ensures
        a == b,
{
}

/// Kind of a single record, as named by the tag in front of it. The table is
/// finer than the section kinds and holds the markers that delete navigation
/// data.
#[derive(Clone, Copy, Debug, PartialEq, Eq, Structural)]
pub enum FSDataType {
    Undefined,
    Airport,
    GenericBuilding,
    LibraryObject,
    Windsock,
    Effect,
    TaxiwaySign,
    Trigger,
    ExtrusionBridge,
    VorIls,
    WorldScript,
    CarParking,
    Ndb,
    Marker,
    SimObject,
    Boundary,
    Waypoint,
    Geopol,
    SceneryObject,
    NameList,
    VorIcaoIndex,
    NdbIcaoIndex,
    WaypointIcaoIndex,
    ModelData,
    ExclusionRectangle,
    TimeZone,
    AirportSummary,
    CVX,
    DEM,
    Landclass,
    Waterclass,
    Regions,
    Population,
    LCLookup,
    Seasons,
    DeleteNavigation,
    DeleteAirportNavigation,
    LandmarkLocation,
}

/// The record kind that a record tag stands for; `Undefined` for every tag
/// outside the table.
pub open spec fn data_kind(tag: u32) -> FSDataType {
    if tag == 0x56 {
        FSDataType::Airport
    } else if tag == 0x0A {
        FSDataType::GenericBuilding
    } else if tag == 0x0B {
        FSDataType::LibraryObject
    } else if tag == 0x0C {
        FSDataType::Windsock
    } else if tag == 0x0D {
        FSDataType::Effect
    } else if tag == 0x0E {
        FSDataType::TaxiwaySign
    } else if tag == 0x10 {
        FSDataType::Trigger
    } else if tag == 0x12 {
        FSDataType::ExtrusionBridge
    } else if tag == 0x13 {
        FSDataType::VorIls
    } else if tag == 0x15 {
        FSDataType::WorldScript
    } else if tag == 0x16 {
        FSDataType::CarParking
    } else if tag == 0x17 {
        FSDataType::Ndb
    } else if tag == 0x18 {
        FSDataType::Marker
    } else if tag == 0x19 {
        FSDataType::SimObject
    } else if tag == 0x20 {
        FSDataType::Boundary
    } else if tag == 0x22 {
        FSDataType::Waypoint
    } else if tag == 0x23 {
        FSDataType::Geopol
    } else if tag == 0x25 {
        FSDataType::SceneryObject
    } else if tag == 0x27 {
        FSDataType::NameList
    } else if tag == 0x28 {
        FSDataType::VorIcaoIndex
    } else if tag == 0x29 {
        FSDataType::NdbIcaoIndex
    } else if tag == 0x2a {
        FSDataType::WaypointIcaoIndex
    } else if tag == 0x2b {
        FSDataType::ModelData
    } else if tag == 0x2e {
        FSDataType::ExclusionRectangle
    } else if tag == 0x2f {
        FSDataType::TimeZone
    } else if tag == 0x32 {
        FSDataType::AirportSummary
    } else if tag == 0x65 {
        FSDataType::CVX
    } else if tag == 0x67 {
        FSDataType::DEM
    } else if tag == 0x68 {
        FSDataType::Landclass
    } else if tag == 0x69 {
        FSDataType::Waterclass
    } else if tag == 0x6a {
        FSDataType::Regions
    } else if tag == 0x6c {
        FSDataType::Population
    } else if tag == 0x6f {
        FSDataType::LCLookup
    } else if tag == 0x78 {
        FSDataType::Seasons
    } else if tag == 0xDA {
        FSDataType::DeleteNavigation
    } else if tag == 0xDB {
        FSDataType::DeleteAirportNavigation
    } else if tag == 0xEA {
        FSDataType::LandmarkLocation
    } else {
        FSDataType::Undefined
    }
}

impl From<u32> for FSDataType {
    fn from(value: u32) -> (kind: FSDataType) {
        match value {
            0x56 => FSDataType::Airport,
            0x0A => FSDataType::GenericBuilding,
            0x0B => FSDataType::LibraryObject,
            0x0C => FSDataType::Windsock,
            0x0D => FSDataType::Effect,
            0x0E => FSDataType::TaxiwaySign,
            0x10 => FSDataType::Trigger,
            0x12 => FSDataType::ExtrusionBridge,
            0x13 => FSDataType::VorIls,
            0x15 => FSDataType::WorldScript,
            0x16 => FSDataType::CarParking,
            0x17 => FSDataType::Ndb,
            0x18 => FSDataType::Marker,
            0x19 => FSDataType::SimObject,
            0x20 => FSDataType::Boundary,
            0x22 => FSDataType::Waypoint,
            0x23 => FSDataType::Geopol,
            0x25 => FSDataType::SceneryObject,
            0x27 => FSDataType::NameList,
            0x28 => FSDataType::VorIcaoIndex,
            0x29 => FSDataType::NdbIcaoIndex,
            0x2a => FSDataType::WaypointIcaoIndex,
            0x2b => FSDataType::ModelData,
            0x2e => FSDataType::ExclusionRectangle,
            0x2f => FSDataType::TimeZone,
            0x32 => FSDataType::AirportSummary,
            0x65 => FSDataType::CVX,
            0x67 => FSDataType::DEM,
            0x68 => FSDataType::Landclass,
            0x69 => FSDataType::Waterclass,
            0x6a => FSDataType::Regions,
            0x6c => FSDataType::Population,
            0x6f => FSDataType::LCLookup,
            0x78 => FSDataType::Seasons,
            0xDA => FSDataType::DeleteNavigation,
            0xDB => FSDataType::DeleteAirportNavigation,
            0xEA => FSDataType::LandmarkLocation,
            _ => FSDataType::Undefined,
        }
    }
}

impl FromSpecImpl<u32> for FSDataType {
    open spec fn obeys_from_spec() -> bool {
        true
    }

    open spec fn from_spec(v: u32) -> FSDataType {
        data_kind(v)
    }
}

/// No two tags share a record kind: a kind other than `Undefined` names the
/// one tag it was decoded from.
pub proof fn lemma_data_kind_injective(a: u32, b: u32)
    requires
        data_kind(a) == data_kind(b),
        data_kind(a) != FSDataType::Undefined,
    ensures
        a == b,
{
}

} // verus!
