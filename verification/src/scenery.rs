//! The scenery cache: every airport that the installed add-ons bring, with
//! the add-on and the container it comes from.

use crate::bgl::airport::{Airport, AirportView};
use crate::bgl::container::{
    container_readable, decoded_objects, parse_bgl, BglObject, BglObjectView,
};
use vstd::prelude::*;

verus! {

/// One airport of one container of one add-on. Angles and altitude are in
/// the units of `Airport`.
#[derive(Debug)]
pub struct AirportScenery {
    pub addon_id: String,
    pub bgl_path: String,
    pub icao: String,
    pub latitude: i64,
    pub longitude: i64,
    pub altitude: i32,
    pub runway_count: u8,
}

/// What an `AirportScenery` holds, as plain values.
pub struct AirportSceneryView {
    pub addon_id: Seq<char>,
    pub bgl_path: Seq<char>,
    pub airport: AirportView,
}

impl View for AirportScenery {
    type V = AirportSceneryView;

    open spec fn view(&self) -> AirportSceneryView {
        AirportSceneryView {
            addon_id: self.addon_id@,
            bgl_path: self.bgl_path@,
            airport: AirportView {
                icao: self.icao@,
                latitude: self.latitude as int,
                longitude: self.longitude as int,
                altitude: self.altitude as int,
                runway_count: self.runway_count as int,
            },
        }
    }
}

impl DeepView for AirportScenery {
    type V = AirportSceneryView;

    open spec fn deep_view(&self) -> AirportSceneryView {
        self@
    }
}

/// The cache entry for one decoded object of the container `bgl_path` of the
/// add-on `addon_id`.
pub open spec fn scenery_of(
    addon_id: Seq<char>,
    bgl_path: Seq<char>,
    object: BglObjectView,
) -> AirportSceneryView {
    match object {
        BglObjectView::Airport(airport) => AirportSceneryView { addon_id, bgl_path, airport },
    }
}

/// The cache entries that one container adds: one per decoded object, in
/// their order, and none where the container cannot be decoded.
pub open spec fn scenery_of_container(
    addon_id: Seq<char>,
    bgl_path: Seq<char>,
    bytes: Seq<u8>,
) -> Seq<AirportSceneryView> {
    if container_readable(bytes) {
        decoded_objects(bytes).map_values(|o: BglObjectView| scenery_of(addon_id, bgl_path, o))
    } else {
        Seq::empty()
    }
}

/// The airports of all installed add-ons.
#[derive(Debug)]
pub struct SceneryCache {
    path: String,
    airports: Vec<AirportScenery>,
}

impl SceneryCache {
    /// Where the cache is stored.
    pub closed spec fn path(&self) -> Seq<char> {
        self.path@
    }

    /// The airports of the cache, in the order in which they were added.
    pub closed spec fn airports(&self) -> Seq<AirportSceneryView> {
        self.airports.deep_view()
    }

    /// An empty cache that is stored at `path`.
    pub fn new(path: String) -> (cache: SceneryCache)
        ensures
            cache.path() == path@,
            cache.airports() == Seq::<AirportSceneryView>::empty(),
    {
        let cache = SceneryCache { path, airports: Vec::new() };
        assert(cache.airports.deep_view() =~= Seq::<AirportSceneryView>::empty());
        cache
    }

    /// A cache stored at `path` that holds `airports`.
    pub fn load(path: String, airports: Vec<AirportScenery>) -> (cache: SceneryCache)
        ensures
            cache.path() == path@,
            cache.airports() == airports.deep_view(),
    {
        SceneryCache { path, airports }
    }

    /// Where the cache is stored.
    pub fn storage_path(&self) -> (path: &str)
        ensures
            path@ == self.path(),
    {
        self.path.as_str()
    }

    /// Empties the cache before it is built anew.
    pub fn clear(&mut self)
        ensures
            final(self).path() == old(self).path(),
            final(self).airports() == Seq::<AirportSceneryView>::empty(),
    {
        self.airports.clear();
        assert(self.airports.deep_view() =~= Seq::<AirportSceneryView>::empty());
    }

    /// Adds the airports of one container of the add-on `addon_id`, read
    /// from `bgl_path`. A container that cannot be decoded adds nothing.
    pub fn build(&mut self, addon_id: &str, bgl_path: &str, bytes: &[u8])
        ensures
            final(self).path() == old(self).path(),
            final(self).airports() == old(self).airports() + scenery_of_container(
                addon_id@,
                bgl_path@,
                bytes@,
            ),
    {
        let ghost before = self.airports.deep_view();
        let bgl_objects = match parse_bgl(bytes) {
            Ok(b) => b,
            Err(_) => {
                assert(before + Seq::<AirportSceneryView>::empty() =~= before);
                return ;
            },
        };
        let ghost added = scenery_of_container(addon_id@, bgl_path@, bytes@);
        let mut i: usize = 0;
        assert(before + added.take(0) =~= before);
        while i < bgl_objects.len()
            invariant
                self.path() == old(self).path(),
                i <= bgl_objects@.len(),
                added.len() == bgl_objects@.len(),
                forall|j: int|
                    0 <= j < added.len() ==> #[trigger] added[j] == scenery_of(
                        addon_id@,
                        bgl_path@,
                        bgl_objects@[j]@,
                    ),
                self.airports.deep_view() == before + added.take(i as int),
            decreases bgl_objects@.len() - i,
        {
            let ghost current = self.airports.deep_view();
            match &bgl_objects[i] {
                BglObject::Airport(airport) => {
                    self.airports.push(
                        AirportScenery {
                            addon_id: addon_id.to_owned(),
                            bgl_path: bgl_path.to_owned(),
                            icao: airport.icao.clone(),
                            latitude: airport.latitude,
                            longitude: airport.longitude,
                            altitude: airport.altitude,
                            runway_count: airport.runway_count,
                        },
                    );
                },
            }
            assert(self.airports.deep_view() =~= current.push(added[i as int]));
            assert(before + added.take(i as int + 1) =~= (before + added.take(i as int)).push(
                added[i as int],
            ));
            i = i + 1;
        }
        assert(added.take(i as int) =~= added);
    }

    /// The airports of the cache, in the order in which they were added.
    pub fn all_airports(&self) -> (airports: &Vec<AirportScenery>)
        ensures
            airports.deep_view() == self.airports(),
    {
        &self.airports
    }

    /// Whether the cache holds no airport.
    pub fn is_empty(&self) -> (empty: bool)
        ensures
            empty == (self.airports().len() == 0),
    {
        self.airports.is_empty()
    }
}

} // verus!
