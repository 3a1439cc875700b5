//! A 3D spatial index over an R-tree.
//!
//! Entries are kept in insertion order in a vector; the R-tree of the
//! `rstar` crate holds, for each entry, its Cartesian key (the projection of
//! [`crate::location::Location::to_point3`] coarsened to 10 m units) together
//! with the entry's position in the vector.  Radius queries ask the tree for
//! everything within a generous envelope of the key metric and re-check each
//! candidate with the exact distance function; the envelope rule and the
//! distance rule are both part of the stated contract.

use vstd::multiset::Multiset;
use vstd::prelude::*;

use crate::geo::abs_int;
use crate::location::{
    make_origin, origin_location, spec_cart_x, spec_cart_y, spec_cart_z, spec_distance_loc,
    Location, LocationError,
};

verus! {

broadcast use
    vstd::seq_lib::group_seq_lib_default,
    vstd::seq_lib::group_to_multiset_ensures,
    vstd::multiset::group_multiset_axioms,
;

/// Default branching factor of the index.
pub const DEFAULT_INDEX_NODE_SIZE: usize = 16;

/// A query whose candidate set would exceed this count is refused.
pub const MAX_POINTS_PER_QUERY: usize = 1000;

/// Smallest magnitude of an indexed device-local point, in millimeters.
pub const MIN_LIDAR_RANGE_MM: u64 = 500;

/// Largest magnitude of an indexed device-local point and largest query
/// radius, in millimeters.
pub const MAX_LIDAR_RANGE_MM: u64 = 50_000;

/// Guaranteed precision at 10 m, in centimeters.
pub const PRECISION_AT_10M_CM: u64 = 1;

/// Millimeters per tree-key unit (one key unit is 10 m).
pub const KEY_UNIT_MM: u64 = 10_000;

/// Extra tree-key units added to every query envelope, covering the
/// coarseness of the keys.
pub const KEY_SLACK_DAM: i64 = 4;

/// Largest magnitude of a tree-key coordinate accepted by the store; keys of
/// projected locations stay below it.
pub const MAX_KEY_DAM: i64 = 650_000;

/// Failures of index operations.
#[derive(Clone, Copy, Debug, PartialEq, Eq, Structural)]
pub enum SpatialIndexError {
    /// A location computation failed.
    Location(LocationError),
    /// A device-local point lies outside the supported range.
    PointValidation { distance_mm: u64 },
    /// The underlying store refused an operation.
    IndexOperation,
    /// The candidate set of a query exceeded [`MAX_POINTS_PER_QUERY`].
    QueryLimit { count: usize },
    /// The query radius lies outside the supported range.
    InvalidRadius { radius_mm: u64 },
}

/// The coordinate frame an index was constructed for.
#[derive(Clone, Copy, Debug, PartialEq, Eq, Structural)]
pub enum IndexFrame {
    /// Absolute geodetic frame: entries are arbitrary validated locations.
    Geodetic,
    /// Device-local frame: entry magnitudes relative to the frame origin
    /// must lie in `[MIN_LIDAR_RANGE_MM, MAX_LIDAR_RANGE_MM]`.
    DeviceLocal,
}

/// An entry of the index.
#[derive(Clone, Debug)]
pub struct IndexedPoint {
    pub location: Location,
    pub id: String,
    pub confidence_ppk: u32,
}

/// Statistics of a bulk rebuild.
#[derive(Clone, Copy, Debug, PartialEq, Eq, Structural)]
pub struct OptimizationStats {
    pub initial_size: usize,
    pub final_size: usize,
    pub duration_ms: u64,
}

/// The store behind the index: an R-tree of Cartesian keys in 10 m units,
/// each carrying the position of its entry.  The tree itself comes from the
/// `rstar` crate and is described to the verifier only through
/// [`rstore_contents`] and the operations below.
#[verifier::external_body]
pub struct RTreeStore {
    tree: rstar::RTree<rstar::primitives::GeomWithData<[i64; 3], usize>>,
}

/// What the store holds: the multiset of (x, y, z, entry position) elements.
pub uninterp spec fn rstore_contents(s: RTreeStore) -> Multiset<(i64, i64, i64, usize)>;

/// Every element of the store stays within [`MAX_KEY_DAM`] per axis, which
/// keeps the tree's internal envelope arithmetic within `i64`.
pub open spec fn rstore_bounded(m: Multiset<(i64, i64, i64, usize)>) -> bool {
    forall|e: (i64, i64, i64, usize)|
        m.count(e) > 0 ==> -MAX_KEY_DAM <= e.0 <= MAX_KEY_DAM && -MAX_KEY_DAM <= e.1 <= MAX_KEY_DAM
            && -MAX_KEY_DAM <= e.2 <= MAX_KEY_DAM
}

/// Squared key-metric distance between an element and a query point.
pub open spec fn spec_elem_chord2(e: (i64, i64, i64, usize), cx: i64, cy: i64, cz: i64) -> int {
    (e.0 - cx) * (e.0 - cx) + (e.1 - cy) * (e.1 - cy) + (e.2 - cz) * (e.2 - cz)
}

/// The elements a radius query selects from the store: those within squared
/// key-metric distance `r2` of the query point.
pub open spec fn within_pred(cx: i64, cy: i64, cz: i64, r2: i64) -> spec_fn(
    (i64, i64, i64, usize),
) -> bool {
    |e: (i64, i64, i64, usize)| spec_elem_chord2(e, cx, cy, cz) <= r2
}

/// Relies on `rstar::RTree::new`: a freshly created tree is empty.
#[verifier::external_body]
fn rstore_new() -> (s: RTreeStore)
    ensures
        rstore_contents(s) == Multiset::<(i64, i64, i64, usize)>::empty(),
{
    RTreeStore { tree: rstar::RTree::new() }
}

/// Relies on `rstar::RTree::insert`: the element is added to the tree (a
/// duplicate is then present twice).
#[verifier::external_body]
fn rstore_insert(s: &mut RTreeStore, x: i64, y: i64, z: i64, data: usize)
    requires
        rstore_bounded(rstore_contents(*old(s))),
        -MAX_KEY_DAM <= x <= MAX_KEY_DAM,
        -MAX_KEY_DAM <= y <= MAX_KEY_DAM,
        -MAX_KEY_DAM <= z <= MAX_KEY_DAM,
    ensures
        rstore_contents(*final(s)) == rstore_contents(*old(s)).insert((x, y, z, data)),
{
    s.tree.insert(rstar::primitives::GeomWithData::new([x, y, z], data));
}

/// Relies on `rstar::RTree::size`: the number of elements in the tree.
#[verifier::external_body]
fn rstore_size(s: &RTreeStore) -> (n: usize)
    ensures
        n == rstore_contents(*s).len(),
{
    s.tree.size()
}

/// Relies on `rstar::RTree::locate_within_distance`: it returns, in some
/// order, exactly the elements whose squared Euclidean distance to the query
/// point is at most `r2`.
#[verifier::external_body]
fn rstore_within(s: &RTreeStore, cx: i64, cy: i64, cz: i64, r2: i64) -> (v: Vec<
    (i64, i64, i64, usize),
>)
    requires
        rstore_bounded(rstore_contents(*s)),
        -MAX_KEY_DAM <= cx <= MAX_KEY_DAM,
        -MAX_KEY_DAM <= cy <= MAX_KEY_DAM,
        -MAX_KEY_DAM <= cz <= MAX_KEY_DAM,
        0 <= r2,
    ensures
        v@.to_multiset() == rstore_contents(*s).filter(within_pred(cx, cy, cz, r2)),
{
    s.tree
        .locate_within_distance([cx, cy, cz], r2)
        .map(|g| (g.geom()[0], g.geom()[1], g.geom()[2], g.data))
        .collect()
}

/// Relies on `rstar::RTree::iter` and `rstar::RTree::bulk_load`: iterating
/// yields every element, and bulk loading builds a tree of exactly the given
/// elements.
#[verifier::external_body]
fn rstore_bulk_rebuild(s: &mut RTreeStore)
    requires
        rstore_bounded(rstore_contents(*old(s))),
    ensures
        rstore_contents(*final(s)) == rstore_contents(*old(s)),
{
    let elements: Vec<rstar::primitives::GeomWithData<[i64; 3], usize>> =
        s.tree.iter().cloned().collect();
    s.tree = rstar::RTree::bulk_load(elements);
}

/// Truncating conversion from centimeters to tree-key units (10 m).
pub open spec fn spec_to_dam(c: int) -> int {
    if c >= 0 {
        c / 1000
    } else {
        -((-c) / 1000)
    }
}

/// The tree key of a location: its Cartesian projection in 10 m units.
pub open spec fn key_i64(l: Location) -> (i64, i64, i64) {
    (
        spec_to_dam(spec_cart_x(l.lat(), l.lon())) as i64,
        spec_to_dam(spec_cart_y(l.lat(), l.lon())) as i64,
        spec_to_dam(spec_cart_z(l.lat(), l.alt())) as i64,
    )
}

/// Keys of validated locations stay within [`MAX_KEY_DAM`].
pub proof fn lemma_key_bounds(l: Location)
    requires
        l.wf(),
    ensures
        -MAX_KEY_DAM <= key_i64(l).0 <= MAX_KEY_DAM,
        -MAX_KEY_DAM <= key_i64(l).1 <= MAX_KEY_DAM,
        -MAX_KEY_DAM <= key_i64(l).2 <= MAX_KEY_DAM,
{
    crate::location::lemma_cart_bounds(l);
}

/// Truncating conversion from centimeters to tree-key units.
fn to_dam(c: i64) -> (k: i64)
    requires
        -1_000_000_000 <= c <= 1_000_000_000,
    ensures
        k as int == spec_to_dam(c as int),
        abs_int(k as int) <= abs_int(c as int) / 1000 + 1,
{
    if c >= 0 {
        c / 1000
    } else {
        -((-c) / 1000)
    }
}

/// The tree key of a location.
fn key_of(l: &Location) -> (k: (i64, i64, i64))
    ensures
        k == key_i64(*l),
        -MAX_KEY_DAM <= k.0 <= MAX_KEY_DAM,
        -MAX_KEY_DAM <= k.1 <= MAX_KEY_DAM,
        -MAX_KEY_DAM <= k.2 <= MAX_KEY_DAM,
{
    proof {
        use_type_invariant(*l);
        lemma_key_bounds(*l);
    }
    let p = l.to_point3();
    (to_dam(p.x_cm), to_dam(p.y_cm), to_dam(p.z_cm))
}

/// Result confidence of a query candidate at distance `d` for radius `r`
/// (both in millimeters): distance attenuation in thousandths.
pub open spec fn spec_result_conf(r: int, d: int) -> int
    recommends
        0 <= d <= r,
{
    if r == 0 {
        1000
    } else {
        ((r - d) * 1000) / r
    }
}

/// The squared key-metric envelope of a query of `radius_mm`: the radius in
/// tree-key units, widened by [`KEY_SLACK_DAM`], squared.
pub open spec fn spec_query_bound2(radius_mm: int) -> i64 {
    ((radius_mm / (KEY_UNIT_MM as int) + KEY_SLACK_DAM) * (radius_mm / (KEY_UNIT_MM as int)
        + KEY_SLACK_DAM)) as i64
}

/// A query result candidate `c` reproduces entry `e`: same location, same
/// identifier, within the radius, with the distance-attenuated confidence.
pub open spec fn candidate_matches(
    e: (Location, Seq<char>, u32),
    c: (Location, String, u32),
    center: Location,
    radius: int,
) -> bool {
    &&& c.0 == e.0
    &&& c.1@ == e.1
    &&& spec_distance_loc(center, e.0) <= radius
    &&& c.2 as int == spec_result_conf(radius, spec_distance_loc(center, e.0))
}

/// A 3D spatial index: validated locations with opaque string identifiers,
/// searchable by radius.
pub struct SpatialIndex {
    store: RTreeStore,
    entries: Vec<IndexedPoint>,
    node_size: usize,
    frame: IndexFrame,
}

impl SpatialIndex {
    /// The entries in insertion order, as (location, identifier, confidence).
    pub closed spec fn entries_view(self) -> Seq<(Location, Seq<char>, u32)> {
        self.entries@.map_values(|p: IndexedPoint| (p.location, p.id@, p.confidence_ppk))
    }

    /// The frame the index was constructed for.
    pub closed spec fn frame_spec(self) -> IndexFrame {
        self.frame
    }

    /// The configured branching factor.
    pub closed spec fn node_size_spec(self) -> int {
        self.node_size as int
    }

    /// The tree keys of the entries, each with its entry position.
    pub open spec fn key_seq(self) -> Seq<(i64, i64, i64, usize)> {
        Seq::new(
            self.entries_view().len(),
            |i: int|
                {
                    let k = key_i64(self.entries_view()[i].0);
                    (k.0, k.1, k.2, i as usize)
                },
        )
    }

    /// Whether entry `i` falls within the key-metric envelope of a query.
    pub open spec fn spec_hit(self, center: Location, radius_mm: int, i: int) -> bool {
        within_pred(
            key_i64(center).0,
            key_i64(center).1,
            key_i64(center).2,
            spec_query_bound2(radius_mm),
        )(self.key_seq()[i])
    }

    /// How many entries fall within the key-metric envelope of a query.
    pub open spec fn spec_tree_hits(self, center: Location, radius_mm: int) -> nat {
        self.key_seq().to_multiset().filter(
            within_pred(
                key_i64(center).0,
                key_i64(center).1,
                key_i64(center).2,
                spec_query_bound2(radius_mm),
            ),
        ).len()
    }

    /// Candidate `c` reproduces some entry within the query envelope.
    pub open spec fn reports_entry(
        self,
        c: (Location, String, u32),
        center: Location,
        radius: int,
    ) -> bool {
        exists|i: int|
            #![auto]
            0 <= i < self.entries_view().len() && candidate_matches(
                self.entries_view()[i],
                c,
                center,
                radius,
            ) && self.spec_hit(center, radius, i)
    }

    /// Entry `i` is reproduced by some candidate of `v`.
    pub open spec fn entry_reported(
        self,
        i: int,
        center: Location,
        radius: int,
        v: Seq<(Location, String, u32)>,
    ) -> bool {
        exists|j: int|
            #![auto]
            0 <= j < v.len() && candidate_matches(self.entries_view()[i], v[j], center, radius)
    }

    /// Well-formedness: the store holds exactly the entry keys, and every
    /// entry location is validated.
    pub closed spec fn inv(self) -> bool {
        &&& rstore_contents(self.store) == self.key_seq().to_multiset()
        &&& forall|i: int|
            0 <= i < self.entries@.len() ==> (#[trigger] self.entries@[i].location).wf()
    }

    proof fn lemma_store_bounded(self)
        requires
            self.inv(),
        ensures
            rstore_bounded(rstore_contents(self.store)),
    {
        let ks = self.key_seq();
        assert forall|e: (i64, i64, i64, usize)| ks.to_multiset().count(e) > 0 implies -MAX_KEY_DAM
            <= e.0 <= MAX_KEY_DAM && -MAX_KEY_DAM <= e.1 <= MAX_KEY_DAM && -MAX_KEY_DAM <= e.2
            <= MAX_KEY_DAM by {
            assert(ks.contains(e));
            let i = choose|i: int| 0 <= i < ks.len() && ks[i] == e;
            lemma_key_bounds(self.entries_view()[i].0);
        }
    }

    /// Creates an empty index for the given frame; the branching factor
    /// defaults to [`DEFAULT_INDEX_NODE_SIZE`].
    pub fn new(node_size: Option<usize>, frame: IndexFrame) -> (s: SpatialIndex)
        ensures
            s.inv(),
            s.entries_view() == Seq::<(Location, Seq<char>, u32)>::empty(),
            s.frame_spec() == frame,
            s.node_size_spec() == (match node_size {
                Some(n) => n as int,
                None => DEFAULT_INDEX_NODE_SIZE as int,
            }),
    {
        let ns: usize = match node_size {
            Some(n) => n,
            None => DEFAULT_INDEX_NODE_SIZE,
        };
        let s = SpatialIndex { store: rstore_new(), entries: Vec::new(), node_size: ns, frame };
        proof {
            assert(s.entries_view() =~= Seq::<(Location, Seq<char>, u32)>::empty());
            assert(s.key_seq() =~= Seq::<(i64, i64, i64, usize)>::empty());
            assert(s.key_seq().to_multiset() =~= Multiset::<(i64, i64, i64, usize)>::empty());
        }
        s
    }

    /// The configured branching factor.
    pub fn node_size(&self) -> (n: usize)
        ensures
            n as int == self.node_size_spec(),
    {
        self.node_size
    }

    /// The number of entries.
    pub fn len(&self) -> (n: usize)
        ensures
            n == self.entries_view().len(),
    {
        self.entries.len()
    }

    /// Checks a point against the range supported in the device-local
    /// frame: its distance from the frame origin must lie within
    /// `[MIN_LIDAR_RANGE_MM, MAX_LIDAR_RANGE_MM]`, and a precision demand
    /// finer than [`PRECISION_AT_10M_CM`] cannot be met within 10 m.
    fn validate_point(location: &Location, precision_cm: u64) -> (result: Result<
        (),
        SpatialIndexError,
    >)
        ensures
            ({
                let d = spec_distance_loc(origin_location(), *location);
                match result {
                    Ok(()) => MIN_LIDAR_RANGE_MM <= d <= MAX_LIDAR_RANGE_MM && !(d <= 10_000
                        && precision_cm > PRECISION_AT_10M_CM),
                    Err(SpatialIndexError::PointValidation { distance_mm }) => {
                        &&& distance_mm as int == d
                        &&& (!(MIN_LIDAR_RANGE_MM <= d <= MAX_LIDAR_RANGE_MM) || (d <= 10_000
                            && precision_cm > PRECISION_AT_10M_CM))
                    },
                    Err(_) => false,
                }
            }),
    {
        let origin = make_origin();
        let d: u64 = origin.distance_mm(location);
        if d < MIN_LIDAR_RANGE_MM || d > MAX_LIDAR_RANGE_MM {
            return Err(SpatialIndexError::PointValidation { distance_mm: d });
        }
        if d <= 10_000 && precision_cm > PRECISION_AT_10M_CM {
            return Err(SpatialIndexError::PointValidation { distance_mm: d });
        }
        Ok(())
    }

    /// Inserts a location under an identifier.  In the device-local frame
    /// the point is first validated against the supported range; a rejected
    /// point leaves the index unchanged.
    pub fn insert(&mut self, location: Location, id: String) -> (result: Result<
        (),
        SpatialIndexError,
    >)
        requires
            old(self).inv(),
        ensures
            final(self).inv(),
            final(self).frame_spec() == old(self).frame_spec(),
            final(self).node_size_spec() == old(self).node_size_spec(),
            ({
                let d = spec_distance_loc(origin_location(), location);
                match result {
                    Ok(()) => {
                        &&& (old(self).frame_spec() == IndexFrame::DeviceLocal
                            ==> MIN_LIDAR_RANGE_MM <= d <= MAX_LIDAR_RANGE_MM)
                        &&& final(self).entries_view() == old(self).entries_view().push(
                            (location, id@, 1000u32),
                        )
                    },
                    Err(SpatialIndexError::PointValidation { distance_mm }) => {
                        &&& old(self).frame_spec() == IndexFrame::DeviceLocal
                        &&& distance_mm as int == d
                        &&& !(MIN_LIDAR_RANGE_MM <= d <= MAX_LIDAR_RANGE_MM)
                        &&& final(self).entries_view() == old(self).entries_view()
                    },
                    Err(_) => false,
                }
            }),
    {
        if matches!(self.frame, IndexFrame::DeviceLocal) {
            match Self::validate_point(&location, PRECISION_AT_10M_CM) {
                Ok(()) => (),
                Err(e) => {
                    return Err(e);
                },
            }
        }
        let idx: usize = self.entries.len();
        let k = key_of(&location);
        proof {
            self.lemma_store_bounded();
            use_type_invariant(location);
        }
        let ghost old_self = *self;
        self.entries.push(IndexedPoint { location, id, confidence_ppk: 1000 });
        rstore_insert(&mut self.store, k.0, k.1, k.2, idx);
        proof {
            assert(self.entries_view() =~= old_self.entries_view().push((location, id@, 1000u32)));
            assert(self.key_seq() =~= old_self.key_seq().push((k.0, k.1, k.2, idx)));
            assert(self.key_seq().to_multiset() == old_self.key_seq().to_multiset().insert(
                (k.0, k.1, k.2, idx),
            ));
        }
        Ok(())
    }

    /// Radius query.  A radius beyond [`MAX_LIDAR_RANGE_MM`] is rejected;
    /// a candidate set beyond [`MAX_POINTS_PER_QUERY`] aborts the query.
    /// On success the result holds exactly the entries that the tree's
    /// key-metric envelope selects and whose distance to `center` is within
    /// the radius, each with a distance-attenuated confidence; the result is
    /// unordered at this layer.
    pub fn query_radius(&self, center: Location, radius_mm: u64) -> (result: Result<
        Vec<(Location, String, u32)>,
        SpatialIndexError,
    >)
        requires
            self.inv(),
        ensures
            match result {
                Ok(v) => {
                    &&& radius_mm <= MAX_LIDAR_RANGE_MM
                    &&& self.spec_tree_hits(center, radius_mm as int) <= MAX_POINTS_PER_QUERY
                    &&& forall|j: int|
                        #![trigger v@[j]]
                        0 <= j < v@.len() ==> self.reports_entry(v@[j], center, radius_mm as int)
                    &&& forall|i: int|
                        #![auto]
                        0 <= i < self.entries_view().len() && self.spec_hit(
                            center,
                            radius_mm as int,
                            i,
                        ) && spec_distance_loc(center, self.entries_view()[i].0) <= radius_mm
                            ==> self.entry_reported(i, center, radius_mm as int, v@)
                },
                Err(SpatialIndexError::InvalidRadius { radius_mm: r }) => r == radius_mm
                    && radius_mm > MAX_LIDAR_RANGE_MM,
                Err(SpatialIndexError::QueryLimit { count }) => {
                    &&& radius_mm <= MAX_LIDAR_RANGE_MM
                    &&& count == self.spec_tree_hits(center, radius_mm as int)
                    &&& count > MAX_POINTS_PER_QUERY
                },
                Err(_) => false,
            },
    {
        if radius_mm > MAX_LIDAR_RANGE_MM {
            return Err(SpatialIndexError::InvalidRadius { radius_mm });
        }
        proof {
            self.lemma_store_bounded();
        }
        let n_entries: usize = self.entries.len();
        let ck = key_of(&center);
        let rd: i64 = (radius_mm / KEY_UNIT_MM) as i64;
        let sdam: i64 = rd + KEY_SLACK_DAM;
        proof {
            assert(sdam * sdam <= 81) by (nonlinear_arith)
                requires
                    0 <= sdam <= 9,
            ;
        }
        let r2: i64 = sdam * sdam;
        proof {
            assert(r2 == spec_query_bound2(radius_mm as int));
        }
        let raw = rstore_within(&self.store, ck.0, ck.1, ck.2, r2);
        proof {
            assert(raw@.to_multiset().len() == raw@.len());
            assert(rstore_contents(self.store) == self.key_seq().to_multiset());
        }
        if raw.len() > MAX_POINTS_PER_QUERY {
            return Err(SpatialIndexError::QueryLimit { count: raw.len() });
        }
        let mut results: Vec<(Location, String, u32)> = Vec::new();
        let mut j: usize = 0;
        while j < raw.len()
            invariant
                self.inv(),
                radius_mm <= MAX_LIDAR_RANGE_MM,
                0 <= j <= raw.len(),
                self.entries@.len() == n_entries,
                raw@.to_multiset() == rstore_contents(self.store).filter(
                    within_pred(
                        key_i64(center).0,
                        key_i64(center).1,
                        key_i64(center).2,
                        spec_query_bound2(radius_mm as int),
                    ),
                ),
                forall|jj: int|
                    #![trigger results@[jj]]
                    0 <= jj < results@.len() ==> self.reports_entry(
                        results@[jj],
                        center,
                        radius_mm as int,
                    ),
                forall|i: int|
                    #![auto]
                    0 <= i < self.entries_view().len() && self.spec_hit(
                        center,
                        radius_mm as int,
                        i,
                    ) && spec_distance_loc(center, self.entries_view()[i].0) <= radius_mm && (
                    exists|k: int| 0 <= k < j && raw@[k] == self.key_seq()[i])
                        ==> self.entry_reported(i, center, radius_mm as int, results@),
            decreases raw@.len() - j,
        {
            let ghost pre_results = results@;
            let ghost pre_j = j as int;
            let e = raw[j];
            proof {
                assert(raw@[pre_j] == e);
                assert(raw@.contains(e));
                assert(raw@.to_multiset().count(e) > 0);
                assert(self.key_seq().to_multiset().count(e) > 0);
                assert(self.key_seq().contains(e));
            }
            let ghost i0: int = choose|i: int|
                0 <= i < self.key_seq().len() && self.key_seq()[i] == e;
            proof {
                assert(self.key_seq()[i0] == e);
                assert(self.key_seq()[i0].3 == i0 as usize);
                assert(e.3 as int == i0);
                assert(self.spec_hit(center, radius_mm as int, i0));
            }
            let idx: usize = e.3;
            let ent_loc = self.entries[idx].location;
            proof {
                assert(self.entries_view()[i0].0 == ent_loc);
            }
            let d: u64 = center.distance_mm(&ent_loc);
            if d <= radius_mm {
                let conf: u32 = if radius_mm == 0 {
                    1000u32
                } else {
                    let q: u64 = ((radius_mm - d) * 1000) / radius_mm;
                    proof {
                        assert(q <= 1000) by (nonlinear_arith)
                            requires
                                q as int == ((radius_mm as int - d as int) * 1000) / (
                                radius_mm as int),
                                0 < radius_mm as int,
                                0 <= d as int <= radius_mm as int,
                        ;
                    }
                    q as u32
                };
                let ent_id = self.entries[idx].id.clone();
                results.push((ent_loc, ent_id, conf));
                proof {
                    let new_jj = pre_results.len() as int;
                    assert(candidate_matches(
                        self.entries_view()[i0],
                        results@[new_jj],
                        center,
                        radius_mm as int,
                    ));
                    assert(self.reports_entry(results@[new_jj], center, radius_mm as int));
                    assert forall|jj: int| #![trigger results@[jj]] 0 <= jj
                        < results@.len() implies self.reports_entry(
                        results@[jj],
                        center,
                        radius_mm as int,
                    ) by {
                        if jj < pre_results.len() {
                            assert(results@[jj] == pre_results[jj]);
                        }
                    }
                    assert forall|i: int|
                        #![auto]
                        0 <= i < self.entries_view().len() && self.spec_hit(
                            center,
                            radius_mm as int,
                            i,
                        ) && spec_distance_loc(center, self.entries_view()[i].0) <= radius_mm && (
                        exists|k: int|
                            0 <= k < pre_j + 1 && raw@[k]
                                == self.key_seq()[i]) implies self.entry_reported(
                        i,
                        center,
                        radius_mm as int,
                        results@,
                    ) by {
                        let k = choose|k: int|
                            0 <= k < pre_j + 1 && raw@[k] == self.key_seq()[i];
                        if k < pre_j {
                            assert(exists|k2: int|
                                0 <= k2 < pre_j && raw@[k2] == self.key_seq()[i]);
                            assert(self.entry_reported(i, center, radius_mm as int, pre_results));
                            let jj = choose|jj: int|
                                #![auto]
                                0 <= jj < pre_results.len() && candidate_matches(
                                    self.entries_view()[i],
                                    pre_results[jj],
                                    center,
                                    radius_mm as int,
                                );
                            assert(results@[jj] == pre_results[jj]);
                            assert(candidate_matches(
                                self.entries_view()[i],
                                results@[jj],
                                center,
                                radius_mm as int,
                            ));
                        } else {
                            assert(raw@[pre_j] == self.key_seq()[i]);
                            assert(self.key_seq()[i] == e);
                            assert(self.key_seq()[i].3 == i as usize);
                            assert(i == i0);
                            assert(candidate_matches(
                                self.entries_view()[i],
                                results@[pre_results.len() as int],
                                center,
                                radius_mm as int,
                            ));
                        }
                    }
                }
            } else {
                proof {
                    assert forall|i: int|
                        #![auto]
                        0 <= i < self.entries_view().len() && self.spec_hit(
                            center,
                            radius_mm as int,
                            i,
                        ) && spec_distance_loc(center, self.entries_view()[i].0) <= radius_mm && (
                        exists|k: int|
                            0 <= k < pre_j + 1 && raw@[k]
                                == self.key_seq()[i]) implies self.entry_reported(
                        i,
                        center,
                        radius_mm as int,
                        results@,
                    ) by {
                        let k = choose|k: int|
                            0 <= k < pre_j + 1 && raw@[k] == self.key_seq()[i];
                        if k < pre_j {
                            assert(exists|k2: int|
                                0 <= k2 < pre_j && raw@[k2] == self.key_seq()[i]);
                            assert(self.entry_reported(i, center, radius_mm as int, pre_results));
                            assert(results@ == pre_results);
                        } else {
                            assert(raw@[pre_j] == self.key_seq()[i]);
                            assert(self.key_seq()[i] == e);
                            assert(self.key_seq()[i].3 == i as usize);
                            assert(i == i0);
                            assert(d as int == spec_distance_loc(
                                center,
                                self.entries_view()[i0].0,
                            ));
                        }
                    }
                }
            }
            j += 1;
        }
        proof {
            assert forall|i: int|
                #![auto]
                0 <= i < self.entries_view().len() && self.spec_hit(center, radius_mm as int, i)
                    && spec_distance_loc(center, self.entries_view()[i].0)
                    <= radius_mm implies self.entry_reported(i, center, radius_mm as int, results@) by {
                let ks = self.key_seq();
                assert(ks.contains(ks[i]));
                assert(ks.to_multiset().count(ks[i]) > 0);
                assert(raw@.to_multiset().count(ks[i]) > 0);
                assert(raw@.contains(ks[i]));
                let k = choose|k: int| 0 <= k < raw@.len() && raw@[k] == ks[i];
                assert(0 <= k < j && raw@[k] == ks[i]);
            }
        }
        Ok(results)
    }

    /// Rebuilds the tree in bulk from the current entries.  The entries —
    /// and so the multiset of indexed points — are preserved exactly.
    pub fn optimize_index(&mut self) -> (result: Result<OptimizationStats, SpatialIndexError>)
        requires
            old(self).inv(),
        ensures
            final(self).inv(),
            final(self).entries_view() == old(self).entries_view(),
            final(self).entries_view().to_multiset() == old(self).entries_view().to_multiset(),
            final(self).frame_spec() == old(self).frame_spec(),
            final(self).node_size_spec() == old(self).node_size_spec(),
            match result {
                Ok(stats) => stats.initial_size == old(self).entries_view().len()
                    && stats.final_size == old(self).entries_view().len(),
                Err(_) => false,
            },
    {
        proof {
            self.lemma_store_bounded();
        }
        let initial: usize = rstore_size(&self.store);
        rstore_bulk_rebuild(&mut self.store);
        let final_size: usize = rstore_size(&self.store);
        proof {
            assert(self.key_seq().to_multiset().len() == self.key_seq().len());
        }
        Ok(OptimizationStats { initial_size: initial, final_size, duration_ms: 0 })
    }
}

/// An entry whose location coincides with the query center is reported by
/// every successful radius query: its key-metric envelope always holds the
/// center itself, and the distance from the center to the entry is zero.
/// In particular, a point accepted by a scan is found again by a query at
/// its synthetic location, under the identifier it was recorded with.
pub proof fn lemma_entry_at_center_is_reported(
    s: SpatialIndex,
    center: Location,
    radius_mm: int,
    i: int,
    v: Seq<(Location, String, u32)>,
)
    requires
        0 <= i < s.entries_view().len(),
        s.entries_view()[i].0 == center,
        center.wf(),
        0 <= radius_mm <= MAX_LIDAR_RANGE_MM,
        forall|ii: int|
            #![auto]
            0 <= ii < s.entries_view().len() && s.spec_hit(center, radius_mm, ii)
                && spec_distance_loc(center, s.entries_view()[ii].0) <= radius_mm
                ==> s.entry_reported(ii, center, radius_mm, v),
    ensures
        s.entry_reported(i, center, radius_mm, v),
        exists|j: int| #![auto] 0 <= j < v.len() && v[j].1@ == s.entries_view()[i].1,
{
    crate::location::lemma_location_distance_self_zero(center);
    assert(spec_distance_loc(center, s.entries_view()[i].0) == 0);
    let k = key_i64(center);
    assert(s.key_seq()[i] == (k.0, k.1, k.2, i as usize));
    let rd = radius_mm / (KEY_UNIT_MM as int);
    assert(0 <= rd <= 5);
    assert(spec_query_bound2(radius_mm) == ((rd + 4) * (rd + 4)) as i64);
    assert(16 <= (rd + 4) * (rd + 4) <= 81) by (nonlinear_arith)
        requires
            0 <= rd <= 5,
    ;
    let e = s.key_seq()[i];
    assert(e.0 == k.0 && e.1 == k.1 && e.2 == k.2);
    assert(spec_elem_chord2(e, k.0, k.1, k.2) == 0);
    assert(s.spec_hit(center, radius_mm, i));
    assert(s.entry_reported(i, center, radius_mm, v));
    let j = choose|j: int|
        #![auto]
        0 <= j < v.len() && candidate_matches(s.entries_view()[i], v[j], center, radius_mm);
    assert(v[j].1@ == s.entries_view()[i].1);
}

} // verus!
