//! Proximity discovery.
//!
//! The resolver queries an entity index around a center, drops candidates
//! of low confidence and candidates that the current environment scan does
//! not see, ranks the survivors by ascending distance from the center
//! (ties broken by descending confidence), and caps the result at
//! [`MAX_RESULTS_PER_QUERY`] entries.  When no environment snapshot is
//! available the visibility filter is skipped and the result is tagged
//! `partial`.

use vstd::prelude::*;

use crate::lidar::{LiDARError, LiDARProcessor};
use crate::location::{spec_distance_loc, Location, LocationError};
use crate::spatial_index::{
    spec_result_conf, IndexFrame, SpatialIndex, SpatialIndexError, MAX_LIDAR_RANGE_MM,
};

verus! {

broadcast use
    vstd::seq_lib::group_seq_lib_default,
    vstd::seq_lib::group_to_multiset_ensures,
    vstd::multiset::group_multiset_axioms,
;

/// Default and largest discovery radius, in millimeters.
pub const DEFAULT_DISCOVERY_RADIUS_MM: u64 = 50_000;

/// Smallest discovery radius and smallest interaction distance, in
/// millimeters.
pub const MIN_INTERACTION_DISTANCE_MM: u64 = 500;

/// Largest number of candidates a discovery returns.
pub const MAX_RESULTS_PER_QUERY: usize = 100;

/// Candidates below this confidence are dropped, in thousandths.
pub const MIN_CONFIDENCE_SCORE_PPK: u32 = 700;

/// Failures of proximity operations.
#[derive(Clone, Copy, Debug, PartialEq, Eq, Structural)]
pub enum ProximityError {
    /// A discovery radius outside
    /// `[MIN_INTERACTION_DISTANCE_MM, DEFAULT_DISCOVERY_RADIUS_MM]`.
    InvalidRadius { value_mm: u64 },
    /// A location computation failed.
    Location(LocationError),
    /// An entity index refused an operation.
    SpatialIndex(SpatialIndexError),
    /// An index hold was not acquired in time.
    LockTimeout,
    /// The environment query behind an interaction check failed.
    Processing(LiDARError),
}

/// A ranked candidate list, tagged `partial` when the environment snapshot
/// was empty or unavailable and the visibility filter was skipped.
#[derive(Clone, Debug)]
pub struct DiscoveryResult {
    pub candidates: Vec<(Location, String, u32)>,
    pub partial: bool,
}

/// Checks a discovery radius against
/// `[MIN_INTERACTION_DISTANCE_MM, DEFAULT_DISCOVERY_RADIUS_MM]`.
pub fn validate_discovery_radius(radius_mm: u64) -> (result: Result<(), ProximityError>)
    ensures
        match result {
            Ok(()) => MIN_INTERACTION_DISTANCE_MM <= radius_mm <= DEFAULT_DISCOVERY_RADIUS_MM,
            Err(ProximityError::InvalidRadius { value_mm }) => value_mm == radius_mm && !(
            MIN_INTERACTION_DISTANCE_MM <= radius_mm <= DEFAULT_DISCOVERY_RADIUS_MM),
            Err(_) => false,
        },
{
    if radius_mm < MIN_INTERACTION_DISTANCE_MM || radius_mm > DEFAULT_DISCOVERY_RADIUS_MM {
        return Err(ProximityError::InvalidRadius { value_mm: radius_mm });
    }
    Ok(())
}

/// Ranking order of discovery: ascending distance key, ties broken by
/// descending confidence.
pub open spec fn pair_le(p: (u64, (Location, String, u32)), q: (u64, (Location, String, u32))) -> bool {
    p.0 < q.0 || (p.0 == q.0 && p.1.2 >= q.1.2)
}

/// Sorts pairs by [`pair_le`] (selection sort), preserving the multiset.
fn sort_pairs(input: Vec<(u64, (Location, String, u32))>) -> (out: Vec<
    (u64, (Location, String, u32)),
>)
    ensures
        out@.to_multiset() == input@.to_multiset(),
        out@.len() == input@.len(),
        forall|a: int, b: int| 0 <= a <= b < out@.len() ==> pair_le(#[trigger] out@[a], #[trigger] out@[b]),
{
    let mut rem = input;
    let ghost orig = rem@;
    let mut out: Vec<(u64, (Location, String, u32))> = Vec::new();
    while rem.len() > 0
        invariant
            out@.to_multiset().add(rem@.to_multiset()) == orig.to_multiset(),
            out@.len() + rem@.len() == orig.len(),
            forall|a: int, b: int|
                0 <= a <= b < out@.len() ==> pair_le(#[trigger] out@[a], #[trigger] out@[b]),
            forall|a: int, r: int|
                0 <= a < out@.len() && 0 <= r < rem@.len() ==> pair_le(
                    #[trigger] out@[a],
                    #[trigger] rem@[r],
                ),
        decreases rem@.len(),
    {
        let mut min_idx: usize = 0;
        let mut m: usize = 1;
        while m < rem.len()
            invariant
                0 <= min_idx < rem@.len(),
                0 < m <= rem@.len(),
                forall|r: int| 0 <= r < m ==> pair_le(rem@[min_idx as int], #[trigger] rem@[r]),
            decreases rem@.len() - m,
        {
            let better = if rem[m].0 < rem[min_idx].0 {
                true
            } else if rem[m].0 == rem[min_idx].0 && rem[m].1.2 > rem[min_idx].1.2 {
                true
            } else {
                false
            };
            if better {
                min_idx = m;
            }
            m += 1;
        }
        let ghost pre_rem = rem@;
        let ghost pre_out = out@;
        let x = rem.remove(min_idx);
        out.push(x);
        proof {
            assert(pre_rem.to_multiset().count(x) > 0) by {
                assert(pre_rem[min_idx as int] == x);
                assert(pre_rem.contains(x));
            }
            assert(rem@.to_multiset() == pre_rem.to_multiset().remove(x));
            assert(out@.to_multiset() == pre_out.to_multiset().insert(x));
            assert(out@.to_multiset().add(rem@.to_multiset()) =~= orig.to_multiset());
            assert forall|a: int, r: int|
                0 <= a < out@.len() && 0 <= r < rem@.len() implies pair_le(
                out@[a],
                rem@[r],
            ) by {
                if a < pre_out.len() {
                    if r < min_idx {
                        assert(rem@[r] == pre_rem[r]);
                    } else {
                        assert(rem@[r] == pre_rem[r + 1]);
                    }
                } else {
                    assert(out@[a] == x);
                    if r < min_idx {
                        assert(rem@[r] == pre_rem[r]);
                    } else {
                        assert(rem@[r] == pre_rem[r + 1]);
                    }
                }
            }
            assert forall|a: int, b: int|
                0 <= a <= b < out@.len() implies pair_le(out@[a], out@[b]) by {
                if b < pre_out.len() {
                } else {
                    assert(out@[b] == x);
                    if a < pre_out.len() {
                        assert(pair_le(pre_out[a], pre_rem[min_idx as int]));
                    }
                }
            }
        }
    }
    out
}

/// Some entity entry lies both within the query envelope and within the
/// radius: a successful radius query returns candidates exactly when one
/// does.
pub open spec fn spec_has_match(s: SpatialIndex, center: Location, radius: int) -> bool {
    exists|i: int|
        #![auto]
        0 <= i < s.entries_view().len() && s.spec_hit(center, radius, i) && spec_distance_loc(
            center,
            s.entries_view()[i].0,
        ) <= radius
}

/// `loc` is seen by the environment: some environment entry that a query
/// of `radius` at `center` reports lies within `radius` of it.
pub open spec fn spec_env_visible(
    env: SpatialIndex,
    center: Location,
    radius: int,
    loc: Location,
) -> bool {
    exists|m: int|
        #![auto]
        0 <= m < env.entries_view().len() && env.spec_hit(center, radius, m) && spec_distance_loc(
            center,
            env.entries_view()[m].0,
        ) <= radius && spec_distance_loc(loc, env.entries_view()[m].0) <= radius
}

/// A discovery candidate that passed every filter: it reproduces an entity
/// entry, its confidence is at least [`MIN_CONFIDENCE_SCORE_PPK`], and —
/// unless the result is partial — the environment sees it.
pub open spec fn good_candidate(
    entity: SpatialIndex,
    env: SpatialIndex,
    partial: bool,
    center: Location,
    radius: int,
    c: (Location, String, u32),
) -> bool {
    &&& entity.reports_entry(c, center, radius)
    &&& c.2 >= MIN_CONFIDENCE_SCORE_PPK
    &&& (partial || spec_env_visible(env, center, radius, c.0))
}

/// Entity entry `i` is eligible for a discovery result: within the query
/// envelope and the radius, confident enough after distance attenuation,
/// and — unless the result is partial — seen by the environment.
pub open spec fn spec_eligible(
    entity: SpatialIndex,
    env: SpatialIndex,
    partial: bool,
    center: Location,
    radius: int,
    i: int,
) -> bool {
    &&& 0 <= i < entity.entries_view().len()
    &&& entity.spec_hit(center, radius, i)
    &&& spec_distance_loc(center, entity.entries_view()[i].0) <= radius
    &&& spec_result_conf(radius, spec_distance_loc(center, entity.entries_view()[i].0))
        >= MIN_CONFIDENCE_SCORE_PPK
    &&& (partial || spec_env_visible(env, center, radius, entity.entries_view()[i].0))
}

/// Entity entry `i` appears among the candidates of `v`.
pub open spec fn entry_in_candidates(
    entity: SpatialIndex,
    i: int,
    v: Seq<(Location, String, u32)>,
) -> bool {
    exists|j: int|
        #![auto]
        0 <= j < v.len() && v[j].0 == entity.entries_view()[i].0 && v[j].1@
            == entity.entries_view()[i].1
}

/// A candidate that reproduces an entry is within the radius and carries
/// the entry's attenuated confidence.
pub proof fn lemma_reports_entry_facts(
    entity: SpatialIndex,
    c: (Location, String, u32),
    center: Location,
    radius: int,
)
    requires
        entity.reports_entry(c, center, radius),
    ensures
        spec_distance_loc(center, c.0) <= radius,
        c.2 as int == spec_result_conf(radius, spec_distance_loc(center, c.0)),
{
    let i = choose|i: int|
        #![auto]
        0 <= i < entity.entries_view().len() && crate::spatial_index::candidate_matches(
            entity.entries_view()[i],
            c,
            center,
            radius,
        ) && entity.spec_hit(center, radius, i);
    assert(c.0 == entity.entries_view()[i].0);
}

/// Whether some point of `env_points` lies within `radius_mm` of `loc`.
fn any_env_within(loc: &Location, env_points: &Vec<(Location, String, u32)>, radius_mm: u64) -> (b:
    bool)
    ensures
        b == exists|m: int|
            #![auto]
            0 <= m < env_points@.len() && spec_distance_loc(*loc, env_points@[m].0) <= radius_mm,
{
    let mut m: usize = 0;
    let mut found = false;
    while m < env_points.len()
        invariant
            0 <= m <= env_points@.len(),
            found == exists|mm: int|
                #![auto]
                0 <= mm < m && spec_distance_loc(*loc, env_points@[mm].0) <= radius_mm,
        decreases env_points@.len() - m,
    {
        let d = loc.distance_mm(&env_points[m].0);
        if d <= radius_mm {
            found = true;
        }
        m += 1;
    }
    found
}

/// Entity entry `i` appears among the candidates of the ranked pairs `v`.
pub open spec fn entry_in_pairs(
    entity: SpatialIndex,
    i: int,
    v: Seq<(u64, (Location, String, u32))>,
) -> bool {
    exists|j: int|
        #![auto]
        0 <= j < v.len() && v[j].1.0 == entity.entries_view()[i].0 && v[j].1.1@
            == entity.entries_view()[i].1
}

/// What a discovery over `entity` with environment `env` promises.
pub open spec fn discover_contract(
    entity: SpatialIndex,
    env: SpatialIndex,
    center: Location,
    radius_mm: u64,
    result: Result<DiscoveryResult, ProximityError>,
) -> bool {
    match result {
        Ok(res) => {
            let r = radius_mm as int;
            let c = res.candidates@;
            &&& MIN_INTERACTION_DISTANCE_MM <= radius_mm <= DEFAULT_DISCOVERY_RADIUS_MM
            &&& c.len() <= MAX_RESULTS_PER_QUERY
            &&& forall|j: int|
                #![trigger c[j]]
                0 <= j < c.len() ==> good_candidate(entity, env, res.partial, center, r, c[j])
            &&& forall|j: int|
                #![trigger c[j]]
                0 <= j < c.len() ==> spec_distance_loc(center, c[j].0) <= r
            &&& forall|a: int, b: int|
                0 <= a <= b < c.len() ==> spec_distance_loc(center, #[trigger] c[a].0)
                    <= spec_distance_loc(center, #[trigger] c[b].0)
            &&& forall|a: int, b: int|
                0 <= a <= b < c.len() && spec_distance_loc(center, #[trigger] c[a].0)
                    == spec_distance_loc(center, #[trigger] c[b].0) ==> c[a].2 >= c[b].2
            &&& res.partial == (env.spec_tree_hits(center, r)
                > crate::spatial_index::MAX_POINTS_PER_QUERY || !spec_has_match(env, center, r))
            &&& (c.len() < MAX_RESULTS_PER_QUERY ==> forall|i: int|
                #![auto]
                spec_eligible(entity, env, res.partial, center, r, i) ==> entry_in_candidates(
                    entity,
                    i,
                    c,
                ))
        },
        Err(ProximityError::InvalidRadius { value_mm }) => value_mm == radius_mm && !(
        MIN_INTERACTION_DISTANCE_MM <= radius_mm <= DEFAULT_DISCOVERY_RADIUS_MM),
        Err(ProximityError::SpatialIndex(SpatialIndexError::QueryLimit { count })) => {
            &&& MIN_INTERACTION_DISTANCE_MM <= radius_mm <= DEFAULT_DISCOVERY_RADIUS_MM
            &&& count == entity.spec_tree_hits(center, radius_mm as int)
            &&& count > crate::spatial_index::MAX_POINTS_PER_QUERY
        },
        Err(_) => false,
    }
}

/// Filters, ranks and caps the candidates of an entity query against an
/// environment snapshot.
#[verifier::rlimit(100)]
fn discover_filter(
    entity: &SpatialIndex,
    Ghost(env): Ghost<SpatialIndex>,
    env_points: Vec<(Location, String, u32)>,
    env_unavailable: bool,
    center: Location,
    radius_mm: u64,
) -> (result: Result<DiscoveryResult, ProximityError>)
    requires
        entity.inv(),
        MIN_INTERACTION_DISTANCE_MM <= radius_mm <= DEFAULT_DISCOVERY_RADIUS_MM,
        env_unavailable ==> env.spec_tree_hits(center, radius_mm as int)
            > crate::spatial_index::MAX_POINTS_PER_QUERY && env_points@.len() == 0,
        !env_unavailable ==> env.spec_tree_hits(center, radius_mm as int)
            <= crate::spatial_index::MAX_POINTS_PER_QUERY,
        !env_unavailable ==> forall|j: int|
            #![trigger env_points@[j]]
            0 <= j < env_points@.len() ==> env.reports_entry(
                env_points@[j],
                center,
                radius_mm as int,
            ),
        !env_unavailable ==> forall|i: int|
            #![auto]
            0 <= i < env.entries_view().len() && env.spec_hit(center, radius_mm as int, i)
                && spec_distance_loc(center, env.entries_view()[i].0) <= radius_mm
                ==> env.entry_reported(i, center, radius_mm as int, env_points@),
    ensures
        discover_contract(*entity, env, center, radius_mm, result),
{
    let r2 = entity.query_radius(center, radius_mm);
    let cands = match r2 {
        Ok(v) => v,
        Err(e) => {
            return Err(ProximityError::SpatialIndex(e));
        },
    };
    let partial: bool = env_unavailable || env_points.len() == 0;
    proof {
        if !env_unavailable {
            if env_points@.len() == 0 {
                assert(!spec_has_match(env, center, radius_mm as int)) by {
                    if spec_has_match(env, center, radius_mm as int) {
                        let i = choose|i: int|
                            #![auto]
                            0 <= i < env.entries_view().len() && env.spec_hit(
                                center,
                                radius_mm as int,
                                i,
                            ) && spec_distance_loc(center, env.entries_view()[i].0) <= radius_mm;
                        assert(env.entry_reported(i, center, radius_mm as int, env_points@));
                    }
                }
            } else {
                assert(spec_has_match(env, center, radius_mm as int)) by {
                    assert(env.reports_entry(env_points@[0], center, radius_mm as int));
                    let i = choose|i: int|
                        #![auto]
                        0 <= i < env.entries_view().len()
                            && crate::spatial_index::candidate_matches(
                            env.entries_view()[i],
                            env_points@[0],
                            center,
                            radius_mm as int,
                        ) && env.spec_hit(center, radius_mm as int, i);
                    assert(spec_distance_loc(center, env.entries_view()[i].0) <= radius_mm);
                }
            }
        }
        assert(partial == (env.spec_tree_hits(center, radius_mm as int)
            > crate::spatial_index::MAX_POINTS_PER_QUERY || !spec_has_match(
            env,
            center,
            radius_mm as int,
        )));
    }
    let mut pairs: Vec<(u64, (Location, String, u32))> = Vec::new();
    let mut j: usize = 0;
    while j < cands.len()
        invariant
            entity.inv(),
            0 <= j <= cands@.len(),
            MIN_INTERACTION_DISTANCE_MM <= radius_mm <= DEFAULT_DISCOVERY_RADIUS_MM,
            forall|jj: int|
                #![trigger cands@[jj]]
                0 <= jj < cands@.len() ==> entity.reports_entry(
                    cands@[jj],
                    center,
                    radius_mm as int,
                ),
            !partial ==> forall|jj: int|
                #![trigger env_points@[jj]]
                0 <= jj < env_points@.len() ==> env.reports_entry(
                    env_points@[jj],
                    center,
                    radius_mm as int,
                ),
            !partial ==> forall|i: int|
                #![auto]
                0 <= i < env.entries_view().len() && env.spec_hit(center, radius_mm as int, i)
                    && spec_distance_loc(center, env.entries_view()[i].0) <= radius_mm
                    ==> env.entry_reported(i, center, radius_mm as int, env_points@),
            forall|p: int|
                #![trigger pairs@[p]]
                0 <= p < pairs@.len() ==> good_candidate(
                    *entity,
                    env,
                    partial,
                    center,
                    radius_mm as int,
                    pairs@[p].1,
                ) && pairs@[p].0 as int == spec_distance_loc(center, pairs@[p].1.0),
            forall|i: int|
                #![auto]
                spec_eligible(*entity, env, partial, center, radius_mm as int, i) && (exists|
                    jj: int,
                |
                    0 <= jj < j && crate::spatial_index::candidate_matches(
                        entity.entries_view()[i],
                        cands@[jj],
                        center,
                        radius_mm as int,
                    )) ==> entry_in_pairs(*entity, i, pairs@),
        decreases cands@.len() - j,
    {
        let ghost pre_pairs = pairs@;
        let ghost pre_j = j as int;
        let conf_ok = cands[j].2 >= MIN_CONFIDENCE_SCORE_PPK;
        let vis = if partial {
            true
        } else {
            any_env_within(&cands[j].0, &env_points, radius_mm)
        };
        proof {
            if !partial && vis {
                let m = choose|m: int|
                    #![auto]
                    0 <= m < env_points@.len() && spec_distance_loc(
                        cands@[pre_j].0,
                        env_points@[m].0,
                    ) <= radius_mm;
                assert(env.reports_entry(env_points@[m], center, radius_mm as int));
                let em = choose|i: int|
                    #![auto]
                    0 <= i < env.entries_view().len() && crate::spatial_index::candidate_matches(
                        env.entries_view()[i],
                        env_points@[m],
                        center,
                        radius_mm as int,
                    ) && env.spec_hit(center, radius_mm as int, i);
                assert(env.entries_view()[em].0 == env_points@[m].0);
                assert(spec_env_visible(env, center, radius_mm as int, cands@[pre_j].0));
            }
        }
        if conf_ok && vis {
            let c = (cands[j].0, cands[j].1.clone(), cands[j].2);
            let d = center.distance_mm(&c.0);
            proof {
                assert(entity.reports_entry(cands@[pre_j], center, radius_mm as int));
                let wi = choose|i: int|
                    #![auto]
                    0 <= i < entity.entries_view().len()
                        && crate::spatial_index::candidate_matches(
                        entity.entries_view()[i],
                        cands@[pre_j],
                        center,
                        radius_mm as int,
                    ) && entity.spec_hit(center, radius_mm as int, i);
                assert(crate::spatial_index::candidate_matches(
                    entity.entries_view()[wi],
                    c,
                    center,
                    radius_mm as int,
                ));
                assert(entity.reports_entry(c, center, radius_mm as int));
            }
            pairs.push((d, c));
        }
        j += 1;
        proof {
            assert forall|i: int|
                #![auto]
                spec_eligible(*entity, env, partial, center, radius_mm as int, i) && (exists|
                    jj: int,
                |
                    0 <= jj < j && crate::spatial_index::candidate_matches(
                        entity.entries_view()[i],
                        cands@[jj],
                        center,
                        radius_mm as int,
                    )) implies entry_in_pairs(*entity, i, pairs@) by {
                let jj = choose|jj: int|
                    0 <= jj < j && crate::spatial_index::candidate_matches(
                        entity.entries_view()[i],
                        cands@[jj],
                        center,
                        radius_mm as int,
                    );
                if jj < pre_j {
                    assert(exists|jj2: int|
                        0 <= jj2 < pre_j && crate::spatial_index::candidate_matches(
                            entity.entries_view()[i],
                            cands@[jj2],
                            center,
                            radius_mm as int,
                        ));
                    assert(entry_in_pairs(*entity, i, pre_pairs));
                    let p = choose|p: int|
                        #![auto]
                        0 <= p < pre_pairs.len() && pre_pairs[p].1.0 == entity.entries_view()[i].0
                            && pre_pairs[p].1.1@ == entity.entries_view()[i].1;
                    assert(pairs@[p] == pre_pairs[p]);
                } else {
                    assert(jj == pre_j);
                    let e = entity.entries_view()[i];
                    assert(cands@[pre_j].0 == e.0 && cands@[pre_j].1@ == e.1);
                    assert(cands@[pre_j].2 as int == spec_result_conf(
                        radius_mm as int,
                        spec_distance_loc(center, e.0),
                    ));
                    assert(conf_ok);
                    if !partial {
                        assert(spec_env_visible(env, center, radius_mm as int, e.0));
                        let m = choose|m: int|
                            #![auto]
                            0 <= m < env.entries_view().len() && env.spec_hit(
                                center,
                                radius_mm as int,
                                m,
                            ) && spec_distance_loc(center, env.entries_view()[m].0) <= radius_mm
                                && spec_distance_loc(e.0, env.entries_view()[m].0) <= radius_mm;
                        assert(env.entry_reported(m, center, radius_mm as int, env_points@));
                        let jm = choose|jm: int|
                            #![auto]
                            0 <= jm < env_points@.len()
                                && crate::spatial_index::candidate_matches(
                                env.entries_view()[m],
                                env_points@[jm],
                                center,
                                radius_mm as int,
                            );
                        assert(env_points@[jm].0 == env.entries_view()[m].0);
                        assert(spec_distance_loc(cands@[pre_j].0, env_points@[jm].0) <= radius_mm);
                        assert(vis);
                    }
                    assert(pairs@[pre_pairs.len() as int].1.0 == e.0);
                }
            }
        }
    }
    let sorted = sort_pairs(pairs);
    let ghost pairs_seq = sorted@;
    proof {
        assert forall|p: int| #![trigger sorted@[p]] 0 <= p < sorted@.len() implies good_candidate(
            *entity,
            env,
            partial,
            center,
            radius_mm as int,
            sorted@[p].1,
        ) && sorted@[p].0 as int == spec_distance_loc(center, sorted@[p].1.0) by {
            assert(sorted@.to_multiset().count(sorted@[p]) > 0) by {
                assert(sorted@.contains(sorted@[p]));
            }
            assert(sorted@.to_multiset() == pairs@.to_multiset());
            assert(pairs@.contains(sorted@[p]));
            let q = choose|q: int| 0 <= q < pairs@.len() && pairs@[q] == sorted@[p];
            assert(pairs@[q] == sorted@[p]);
        }
    }
    let limit: usize = if sorted.len() > MAX_RESULTS_PER_QUERY {
        MAX_RESULTS_PER_QUERY
    } else {
        sorted.len()
    };
    let mut out: Vec<(Location, String, u32)> = Vec::new();
    let mut p: usize = 0;
    while p < limit
        invariant
            0 <= p <= limit,
            limit <= sorted@.len(),
            out@.len() == p,
            forall|q: int|
                #![trigger out@[q]]
                0 <= q < p ==> out@[q].0 == sorted@[q].1.0 && out@[q].1@ == sorted@[q].1.1@
                    && out@[q].2 == sorted@[q].1.2,
        decreases limit - p,
    {
        let c = (sorted[p].1.0, sorted[p].1.1.clone(), sorted[p].1.2);
        out.push(c);
        p += 1;
    }
    proof {
        assert forall|jq: int| #![trigger out@[jq]] 0 <= jq < out@.len() implies good_candidate(
            *entity,
            env,
            partial,
            center,
            radius_mm as int,
            out@[jq],
        ) && spec_distance_loc(center, out@[jq].0) <= radius_mm as int by {
            let sc = sorted@[jq].1;
            assert(good_candidate(*entity, env, partial, center, radius_mm as int, sc));
            assert(entity.reports_entry(sc, center, radius_mm as int));
            let wi = choose|i: int|
                #![auto]
                0 <= i < entity.entries_view().len() && crate::spatial_index::candidate_matches(
                    entity.entries_view()[i],
                    sc,
                    center,
                    radius_mm as int,
                ) && entity.spec_hit(center, radius_mm as int, i);
            assert(crate::spatial_index::candidate_matches(
                entity.entries_view()[wi],
                out@[jq],
                center,
                radius_mm as int,
            ));
            assert(entity.reports_entry(out@[jq], center, radius_mm as int));
            if !partial {
                assert(spec_env_visible(env, center, radius_mm as int, sc.0));
            }
            lemma_reports_entry_facts(*entity, out@[jq], center, radius_mm as int);
        }
        assert forall|a: int, b: int| 0 <= a <= b < out@.len() implies spec_distance_loc(
            center,
            out@[a].0,
        ) <= spec_distance_loc(center, out@[b].0) && (spec_distance_loc(center, out@[a].0)
            == spec_distance_loc(center, out@[b].0) ==> out@[a].2 >= out@[b].2) by {
            assert(pair_le(sorted@[a], sorted@[b]));
            assert(sorted@[a].0 as int == spec_distance_loc(center, sorted@[a].1.0));
            assert(sorted@[b].0 as int == spec_distance_loc(center, sorted@[b].1.0));
        }
        if out@.len() < MAX_RESULTS_PER_QUERY {
            assert(limit == sorted@.len());
            assert forall|i: int|
                #![auto]
                spec_eligible(
                    *entity,
                    env,
                    partial,
                    center,
                    radius_mm as int,
                    i,
                ) implies entry_in_candidates(*entity, i, out@) by {
                assert(entity.entry_reported(i, center, radius_mm as int, cands@));
                let jj = choose|jj: int|
                    #![auto]
                    0 <= jj < cands@.len() && crate::spatial_index::candidate_matches(
                        entity.entries_view()[i],
                        cands@[jj],
                        center,
                        radius_mm as int,
                    );
                assert(entry_in_pairs(*entity, i, pairs@));
                let q = choose|q: int|
                    #![auto]
                    0 <= q < pairs@.len() && pairs@[q].1.0 == entity.entries_view()[i].0
                        && pairs@[q].1.1@ == entity.entries_view()[i].1;
                assert(pairs@.to_multiset().count(pairs@[q]) > 0) by {
                    assert(pairs@.contains(pairs@[q]));
                }
                assert(sorted@.to_multiset().count(pairs@[q]) > 0);
                assert(sorted@.contains(pairs@[q]));
                let sp = choose|sp: int| 0 <= sp < sorted@.len() && sorted@[sp] == pairs@[q];
                assert(out@[sp].0 == entity.entries_view()[i].0);
                assert(out@[sp].1@ == entity.entries_view()[i].1);
            }
        }
    }
    Ok(DiscoveryResult { candidates: out, partial })
}

/// The attenuated confidence lies in `[0, 1000]`.
pub proof fn lemma_result_conf_bounds(r: int, d: int)
    requires
        0 <= d <= r,
    ensures
        0 <= spec_result_conf(r, d) <= 1000,
{
    if r != 0 {
        assert(0 <= ((r - d) * 1000) / r <= 1000) by (nonlinear_arith)
            requires
                0 <= d <= r,
                r != 0,
        ;
    }
}

/// The discovery pipeline over one entity index: radius validation, an
/// environment snapshot (degrading to a partial result when it fails),
/// then filtering, ranking and capping.
fn discover_on(
    entity: &SpatialIndex,
    processor: &LiDARProcessor,
    center: Location,
    radius_mm: u64,
) -> (result: Result<DiscoveryResult, ProximityError>)
    requires
        entity.inv(),
        processor.inv(),
    ensures
        discover_contract(*entity, processor.env(), center, radius_mm, result),
{
    match validate_discovery_radius(radius_mm) {
        Ok(()) => (),
        Err(e) => {
            return Err(e);
        },
    }
    match processor.query_environment(&center, radius_mm) {
        Ok(ctx) => discover_filter(
            entity,
            Ghost(processor.env()),
            ctx.points,
            false,
            center,
            radius_mm,
        ),
        Err(_) => discover_filter(
            entity,
            Ghost(processor.env()),
            Vec::new(),
            true,
            center,
            radius_mm,
        ),
    }
}

/// The proximity resolver: the user and tag entity indexes.
pub struct ProximityService {
    user_index: SpatialIndex,
    tag_index: SpatialIndex,
}

impl ProximityService {
    /// The user index.
    pub closed spec fn users(self) -> SpatialIndex {
        self.user_index
    }

    /// The tag index.
    pub closed spec fn tags(self) -> SpatialIndex {
        self.tag_index
    }

    /// Well-formedness of both entity indexes.
    pub open spec fn inv(self) -> bool {
        &&& self.users().inv()
        &&& self.users().frame_spec() == IndexFrame::Geodetic
        &&& self.tags().inv()
        &&& self.tags().frame_spec() == IndexFrame::Geodetic
    }

    /// Creates a resolver over two geodetic entity indexes.
    pub fn new(user_index: SpatialIndex, tag_index: SpatialIndex) -> (s: ProximityService)
        requires
            user_index.inv(),
            user_index.frame_spec() == IndexFrame::Geodetic,
            tag_index.inv(),
            tag_index.frame_spec() == IndexFrame::Geodetic,
        ensures
            s.inv(),
            s.users() == user_index,
            s.tags() == tag_index,
    {
        ProximityService { user_index, tag_index }
    }

    /// Registers a user at a location.  The geodetic index accepts every
    /// validated location.
    pub fn register_user(&mut self, location: Location, id: String) -> (result: Result<
        (),
        ProximityError,
    >)
        requires
            old(self).inv(),
        ensures
            final(self).inv(),
            final(self).tags() == old(self).tags(),
            result is Ok,
            final(self).users().entries_view() == old(self).users().entries_view().push(
                (location, id@, 1000u32),
            ),
    {
        match self.user_index.insert(location, id) {
            Ok(()) => Ok(()),
            Err(_) => {
                proof {
                    assert(false);
                }
                vstd::pervasive::unreached()
            },
        }
    }

    /// Discovers users within `radius_mm` (default 50 m) of `center`,
    /// filtered by confidence and environment visibility, ranked by
    /// ascending distance with ties broken by descending confidence, and
    /// capped at [`MAX_RESULTS_PER_QUERY`].
    pub fn discover_nearby_users(
        &self,
        processor: &LiDARProcessor,
        center: Location,
        radius_mm: Option<u64>,
    ) -> (result: Result<DiscoveryResult, ProximityError>)
        requires
            self.inv(),
            processor.inv(),
        ensures
            discover_contract(
                self.users(),
                processor.env(),
                center,
                match radius_mm {
                    Some(r) => r,
                    None => DEFAULT_DISCOVERY_RADIUS_MM,
                },
                result,
            ),
    {
        let r: u64 = match radius_mm {
            Some(r) => r,
            None => DEFAULT_DISCOVERY_RADIUS_MM,
        };
        discover_on(&self.user_index, processor, center, r)
    }

    /// Discovers tags within `radius_mm` (default 50 m) of `center`, with
    /// the same filtering, ranking and cap as user discovery.
    pub fn discover_nearby_tags(
        &self,
        processor: &LiDARProcessor,
        center: Location,
        radius_mm: Option<u64>,
    ) -> (result: Result<DiscoveryResult, ProximityError>)
        requires
            self.inv(),
            processor.inv(),
        ensures
            discover_contract(
                self.tags(),
                processor.env(),
                center,
                match radius_mm {
                    Some(r) => r,
                    None => DEFAULT_DISCOVERY_RADIUS_MM,
                },
                result,
            ),
    {
        let r: u64 = match radius_mm {
            Some(r) => r,
            None => DEFAULT_DISCOVERY_RADIUS_MM,
        };
        discover_on(&self.tag_index, processor, center, r)
    }

    /// Whether an interaction between two locations is possible: below the
    /// minimum interaction distance it is not; otherwise the confidence is
    /// the largest environment confidence among reported points within the
    /// distance of both, and the interaction is possible when it reaches
    /// [`MIN_CONFIDENCE_SCORE_PPK`].
    #[verifier::rlimit(100)]
    pub fn check_interaction_possible(
        &self,
        processor: &LiDARProcessor,
        location1: &Location,
        location2: &Location,
    ) -> (result: Result<(bool, u32), ProximityError>)
        requires
            processor.inv(),
        ensures
            ({
                let d = spec_distance_loc(*location1, *location2);
                let env = processor.env();
                match result {
                    Ok((possible, conf)) => {
                        &&& (d < MIN_INTERACTION_DISTANCE_MM ==> possible == false && conf == 0)
                        &&& (d >= MIN_INTERACTION_DISTANCE_MM ==> {
                            &&& d <= MAX_LIDAR_RANGE_MM
                            &&& possible == (conf >= MIN_CONFIDENCE_SCORE_PPK)
                            &&& conf <= 1000
                            &&& (conf > 0 ==> exists|m: int|
                                #![auto]
                                0 <= m < env.entries_view().len() && env.spec_hit(
                                    *location1,
                                    d,
                                    m,
                                ) && spec_distance_loc(*location1, env.entries_view()[m].0) <= d
                                    && spec_distance_loc(*location2, env.entries_view()[m].0) <= d
                                    && conf as int == spec_result_conf(
                                    d,
                                    spec_distance_loc(*location1, env.entries_view()[m].0),
                                ))
                            &&& forall|m: int|
                                #![auto]
                                0 <= m < env.entries_view().len() && env.spec_hit(
                                    *location1,
                                    d,
                                    m,
                                ) && spec_distance_loc(*location1, env.entries_view()[m].0) <= d
                                    && spec_distance_loc(*location2, env.entries_view()[m].0) <= d
                                    ==> spec_result_conf(
                                    d,
                                    spec_distance_loc(*location1, env.entries_view()[m].0),
                                ) <= conf as int
                        })
                    },
                    Err(ProximityError::Processing(_)) => d >= MIN_INTERACTION_DISTANCE_MM && (d
                        > MAX_LIDAR_RANGE_MM || env.spec_tree_hits(*location1, d)
                        > crate::spatial_index::MAX_POINTS_PER_QUERY),
                    Err(_) => false,
                }
            }),
    {
        let d: u64 = location1.distance_mm(location2);
        if d < MIN_INTERACTION_DISTANCE_MM {
            return Ok((false, 0));
        }
        let ctx = match processor.query_environment(location1, d) {
            Ok(ctx) => ctx,
            Err(e) => {
                return Err(ProximityError::Processing(e));
            },
        };
        let ghost env = processor.env();
        let points = ctx.points;
        let mut conf: u32 = 0;
        let mut m: usize = 0;
        while m < points.len()
            invariant
                0 <= m <= points@.len(),
                MIN_INTERACTION_DISTANCE_MM <= d <= MAX_LIDAR_RANGE_MM,
                forall|jj: int|
                    #![trigger points@[jj]]
                    0 <= jj < points@.len() ==> env.reports_entry(points@[jj], *location1, d as int),
                conf == 0 || exists|mm: int|
                    #![auto]
                    0 <= mm < m && spec_distance_loc(*location1, points@[mm].0) <= d
                        && spec_distance_loc(*location2, points@[mm].0) <= d && points@[mm].2
                        == conf,
                forall|mm: int|
                    #![trigger points@[mm]]
                    0 <= mm < m && spec_distance_loc(*location1, points@[mm].0) <= d
                        && spec_distance_loc(*location2, points@[mm].0) <= d ==> points@[mm].2
                        <= conf,
                conf <= 1000,
            decreases points@.len() - m,
        {
            let dm1 = location1.distance_mm(&points[m].0);
            let dm2 = location2.distance_mm(&points[m].0);
            if dm1 <= d && dm2 <= d && points[m].2 > conf {
                conf = points[m].2;
                proof {
                    assert(env.reports_entry(points@[m as int], *location1, d as int));
                    lemma_reports_entry_facts(env, points@[m as int], *location1, d as int);
                    lemma_result_conf_bounds(
                        d as int,
                        spec_distance_loc(*location1, points@[m as int].0),
                    );
                }
            }
            m += 1;
        }
        proof {
            if conf > 0 {
                let mm = choose|mm: int|
                    #![auto]
                    0 <= mm < points@.len() && spec_distance_loc(*location1, points@[mm].0) <= d
                        && spec_distance_loc(*location2, points@[mm].0) <= d && points@[mm].2
                        == conf;
                assert(env.reports_entry(points@[mm], *location1, d as int));
                let wi = choose|i: int|
                    #![auto]
                    0 <= i < env.entries_view().len() && crate::spatial_index::candidate_matches(
                        env.entries_view()[i],
                        points@[mm],
                        *location1,
                        d as int,
                    ) && env.spec_hit(*location1, d as int, i);
                assert(env.entries_view()[wi].0 == points@[mm].0);
                assert(spec_distance_loc(*location1, env.entries_view()[wi].0) <= d);
                assert(spec_distance_loc(*location2, env.entries_view()[wi].0) <= d);
                assert(conf as int == spec_result_conf(
                    d as int,
                    spec_distance_loc(*location1, env.entries_view()[wi].0),
                ));
            }
            assert forall|m2: int|
                #![auto]
                0 <= m2 < env.entries_view().len() && env.spec_hit(*location1, d as int, m2)
                    && spec_distance_loc(*location1, env.entries_view()[m2].0) <= d
                    && spec_distance_loc(*location2, env.entries_view()[m2].0)
                    <= d implies spec_result_conf(
                d as int,
                spec_distance_loc(*location1, env.entries_view()[m2].0),
            ) <= conf as int by {
                assert(env.entry_reported(m2, *location1, d as int, points@));
                let jm = choose|jm: int|
                    #![auto]
                    0 <= jm < points@.len() && crate::spatial_index::candidate_matches(
                        env.entries_view()[m2],
                        points@[jm],
                        *location1,
                        d as int,
                    );
                assert(points@[jm].0 == env.entries_view()[m2].0);
                assert(points@[jm].2 <= conf);
                assert(points@[jm].2 as int == spec_result_conf(
                    d as int,
                    spec_distance_loc(*location1, env.entries_view()[m2].0),
                ));
            }
        }
        Ok((conf >= MIN_CONFIDENCE_SCORE_PPK, conf))
    }

    /// Registers a tag at a location.
    pub fn register_tag(&mut self, location: Location, id: String) -> (result: Result<
        (),
        ProximityError,
    >)
        requires
            old(self).inv(),
        ensures
            final(self).inv(),
            final(self).users() == old(self).users(),
            result is Ok,
            final(self).tags().entries_view() == old(self).tags().entries_view().push(
                (location, id@, 1000u32),
            ),
    {
        match self.tag_index.insert(location, id) {
            Ok(()) => Ok(()),
            Err(_) => {
                proof {
                    assert(false);
                }
                vstd::pervasive::unreached()
            },
        }
    }
}

} // verus!
