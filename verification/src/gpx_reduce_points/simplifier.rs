//! The track reduction driver around the epsilon search.
//!
//! The simplification primitive and the floating-point tolerance
//! arithmetic are injected as callables, as the search consumes them: one
//! that evaluates a track at a tolerance given as an IEEE 754 bit pattern
//! and returns the per-segment retained indices, and one that computes a
//! requested trial tolerance (a doubling or a bracket midpoint).  The
//! driver assumes of the primitive exactly its stated interface contract —
//! ascending unique indices into each segment's points, containing the
//! first and last index whenever the segment is non-empty — and proves
//! everything else: an over-budget track is replaced by the best
//! candidate of an actual run of the specified search over the trials
//! that were observed, never by anything the primitive did not return.

use vstd::prelude::*;

pub use crate::simplifier::SimplificationMethod;

use crate::assembly::{create_track_from_indices, endpoints_preserved,
    lemma_reduction_preserves_endpoints, lemma_reduced_track_point_total, reduced_track,
    valid_segment_indices, valid_trial_indices};
use crate::counting::{clamped_count, count_points_in_track, lemma_total_segment_points_nonneg,
    total_index_count, track_point_total};
use crate::epsilon_search::{admissible_trials, initial_model, iteration_cap, pending_spec,
    run_spec, wf_model, EpsilonSearch, SearchModel, SearchOutcome, TrialTolerance};
use crate::gpx_model::{gpx_attributes, gpx_routes, gpx_set_tracks, gpx_take_tracks, gpx_tracks,
    gpx_waypoints, seg_points, track_attributes, track_name, track_segments};

verus! {

/// The per-invocation parameters of one reduction run.  The initial
/// tolerance guess is carried as the IEEE 754 bit pattern of a double
/// strictly greater than zero.
#[derive(Clone, Debug)]
pub struct SolverConfig {
    /// Inclusive upper bound on each track's retained point count.
    pub max_points: u32,
    /// Hard cap on primitive evaluations per track, over both search
    /// phases.
    pub max_iterations: u32,
    /// Which simplification criterion the injected primitive applies.
    pub method: SimplificationMethod,
    /// IEEE 754 bit pattern of the initial tolerance guess, the intended
    /// midpoint of the initial search bracket.
    pub initial_epsilon_bits: u64,
}

/// How `out` may relate to `orig` after the driver ran with budget
/// `max_points`: a track already within budget is returned unchanged, and
/// any other track is replaced by a reduction of itself along valid
/// retained-index lists.
pub open spec fn track_reduction_result(orig: gpx::Track, out: gpx::Track, max_points: u32)
    -> bool {
    &&& track_attributes(out) == track_attributes(orig)
    &&& track_name(out) == track_name(orig)
    &&& endpoints_preserved(orig, out)
    &&& track_point_total(orig) <= max_points as int ==> out == orig
    &&& track_point_total(orig) > max_points as int ==> (exists|idx: Seq<Seq<usize>>|
        valid_trial_indices(idx, orig) && reduced_track(orig, out, idx))
}

/// The abstract search state a finished run left behind matches the
/// outcome handed out.
pub open spec fn outcome_matches(o: SearchOutcome, m: SearchModel) -> bool {
    &&& pending_spec(m) is None
    &&& o.best_indices.deep_view() == m.best_indices
    &&& o.point_count == m.best_count
    &&& o.iterations == m.iterations
    &&& o.met_budget == (m.best_count <= m.max_points as u64)
}

/// `out` is `orig` reduced along the best candidate of the finished run
/// of the search from `init` over the observed `trials`, and holds
/// exactly that candidate's point count.
pub open spec fn searched_reduction_along(
    orig: gpx::Track,
    out: gpx::Track,
    init: SearchModel,
    trials: Seq<(u64, Seq<Seq<usize>>)>,
) -> bool {
    let m = run_spec(init, trials);
    &&& pending_spec(m) is None
    &&& m.iterations >= 1
    &&& valid_trial_indices(m.best_indices, orig)
    &&& reduced_track(orig, out, m.best_indices)
    &&& clamped_count(track_point_total(out)) == m.best_count
}

/// `out` is `orig` reduced along the winning candidate of some finished,
/// admissible run of the search that starts from the given budget,
/// iteration cap, and initial tolerance.  This ties a replacement track
/// to the specified search: by
/// [`crate::epsilon_search::lemma_budget_respected`] (lifted to the track
/// by [`lemma_reduction_meets_budget`]) its point count fits the budget
/// whenever any observed trial did, and by
/// [`crate::epsilon_search::lemma_fitting_trial_bounds`] together with
/// [`crate::epsilon_search::lemma_run_best_from_trials`] that count is
/// the largest among the within-budget trials the search observed.
pub open spec fn searched_reduction(
    orig: gpx::Track,
    out: gpx::Track,
    max_points: u32,
    max_iterations: u32,
    initial_epsilon_bits: u64,
) -> bool {
    exists|trials: Seq<(u64, Seq<Seq<usize>>)>|
        #[trigger] admissible_trials(
            initial_model(max_points, max_iterations, initial_epsilon_bits),
            trials,
        ) && searched_reduction_along(
            orig,
            out,
            initial_model(max_points, max_iterations, initial_epsilon_bits),
            trials,
        )
}

/// `out` is `orig` reduced along a set of retained-index lists that the
/// injected primitive actually returned for `orig` at some tolerance:
/// the replacement is never fabricated by the driver.
pub open spec fn primitive_reduction<F: Fn(&gpx::Track, u64) -> Vec<Vec<usize>>>(
    evaluate: F,
    orig: gpx::Track,
    out: gpx::Track,
) -> bool {
    exists|t: &gpx::Track, eps: u64, v: Vec<Vec<usize>>|
        *t == orig && #[trigger] call_ensures(evaluate, (t, eps), v) && reduced_track(
            orig,
            out,
            v.deep_view(),
        )
}

/// Budget respect at the track level: a track reduced along the best
/// candidate of an admissible run that observed at least one trial within
/// the budget holds no more points than the budget.
pub proof fn lemma_reduction_meets_budget(
    orig: gpx::Track,
    out: gpx::Track,
    max_points: u32,
    max_iterations: u32,
    initial_epsilon_bits: u64,
    trials: Seq<(u64, Seq<Seq<usize>>)>,
)
    requires
        admissible_trials(initial_model(max_points, max_iterations, initial_epsilon_bits), trials),
        searched_reduction_along(
            orig,
            out,
            initial_model(max_points, max_iterations, initial_epsilon_bits),
            trials,
        ),
        exists|i: int|
            0 <= i < trials.len() && clamped_count(total_index_count(#[trigger] trials[i].1))
                <= max_points as u64,
    ensures
        track_point_total(out) <= max_points as int,
{
    let init = initial_model(max_points, max_iterations, initial_epsilon_bits);
    assert(wf_model(init));
    crate::epsilon_search::lemma_budget_respected(init, trials);
    lemma_total_segment_points_nonneg(track_segments(out));
    assert(clamped_count(track_point_total(out)) <= max_points as u64);
}

/// Runs one epsilon search over `track` with the given budget, iteration
/// cap, and initial tolerance bit pattern, and returns the winning trial.
///
/// `evaluate` is the simplification primitive lifted over all segments of
/// a track; `tolerance_of` computes a requested trial tolerance.  The
/// outcome's candidate is an actual primitive result, its point count is
/// exact, the number of evaluations never exceeds the iteration cap, and
/// the whole cap has been spent whenever the budget was not met.
/// Moreover the outcome is exactly the run of the specified search over
/// the sequence of trials that was observed: together with
/// [`crate::epsilon_search::lemma_search_deterministic`], two runs that
/// observe the same trials return the same outcome.
pub fn run_epsilon_search_from<F: Fn(&gpx::Track, u64) -> Vec<Vec<usize>>, G: Fn(
    TrialTolerance,
) -> u64>(
    track: &gpx::Track,
    max_points: u32,
    max_iterations: u32,
    initial_epsilon_bits: u64,
    evaluate: &F,
    tolerance_of: &G,
) -> (o: SearchOutcome)
    requires
        forall|eps: u64| #[trigger] call_requires(*evaluate, (track, eps)),
        forall|req: TrialTolerance| #[trigger] call_requires(*tolerance_of, (req,)),
        forall|eps: u64, r: Vec<Vec<usize>>|
            call_ensures(*evaluate, (track, eps), r) ==> valid_trial_indices(r.deep_view(), *track),
    ensures
        valid_trial_indices(o.best_indices.deep_view(), *track),
        o.point_count == clamped_count(total_index_count(o.best_indices.deep_view())),
        o.met_budget == (o.point_count <= max_points as u64),
        1 <= o.iterations <= iteration_cap(max_iterations),
        !o.met_budget ==> o.iterations == iteration_cap(max_iterations),
        exists|eps: u64, v: Vec<Vec<usize>>|
            #[trigger] call_ensures(*evaluate, (track, eps), v) && v.deep_view()
                == o.best_indices.deep_view(),
        exists|trials: Seq<(u64, Seq<Seq<usize>>)>|
            #[trigger] admissible_trials(
                initial_model(max_points, max_iterations, initial_epsilon_bits),
                trials,
            ) && outcome_matches(
                o,
                run_spec(initial_model(max_points, max_iterations, initial_epsilon_bits), trials),
            ),
{
    let ghost init = initial_model(max_points, max_iterations, initial_epsilon_bits);
    let mut search = EpsilonSearch::begin(max_points, max_iterations, initial_epsilon_bits);
    let ghost mut trials: Seq<(u64, Seq<Seq<usize>>)> = Seq::empty();
    loop
        invariant
            search.wf(),
            search.model().max_points == max_points,
            search.model().max_iterations == max_iterations,
            admissible_trials(init, trials),
            search.model() == run_spec(init, trials),
            forall|eps: u64| #[trigger] call_requires(*evaluate, (track, eps)),
            forall|req: TrialTolerance| #[trigger] call_requires(*tolerance_of, (req,)),
            forall|eps: u64, r: Vec<Vec<usize>>|
                call_ensures(*evaluate, (track, eps), r) ==> valid_trial_indices(
                    r.deep_view(),
                    *track,
                ),
            search.model().iterations >= 1 ==> valid_trial_indices(
                search.model().best_indices,
                *track,
            ),
            search.model().iterations >= 1 ==> (exists|eps: u64, v: Vec<Vec<usize>>|
                #[trigger] call_ensures(*evaluate, (track, eps), v) && v.deep_view()
                    == search.model().best_indices),
        ensures
            search.wf(),
            search.model().max_points == max_points,
            search.model().max_iterations == max_iterations,
            pending_spec(search.model()) is None,
            admissible_trials(init, trials),
            search.model() == run_spec(init, trials),
            search.model().iterations >= 1 ==> valid_trial_indices(
                search.model().best_indices,
                *track,
            ),
            search.model().iterations >= 1 ==> (exists|eps: u64, v: Vec<Vec<usize>>|
                #[trigger] call_ensures(*evaluate, (track, eps), v) && v.deep_view()
                    == search.model().best_indices),
        decreases iteration_cap(max_iterations) - search.iterations,
    {
        match search.pending_request() {
            None => {
                break;
            },
            Some(request) => {
                let eps_bits = tolerance_of(request);
                let indices = evaluate(track, eps_bits);
                let ghost saved: Vec<Vec<usize>> = indices;
                let ghost before = search.model();
                search.record_trial(eps_bits, indices);
                proof {
                    crate::epsilon_search::lemma_step_best_from_trials(
                        before,
                        eps_bits,
                        saved.deep_view(),
                    );
                    crate::epsilon_search::lemma_admissible_snoc(
                        init,
                        trials,
                        eps_bits,
                        saved.deep_view(),
                    );
                    crate::epsilon_search::lemma_run_spec_snoc(
                        init,
                        trials,
                        eps_bits,
                        saved.deep_view(),
                    );
                    trials = trials.push((eps_bits, saved.deep_view()));
                }
            },
        }
    }
    let o = search.into_outcome();
    proof {
        assert(outcome_matches(o, run_spec(init, trials)));
    }
    o
}

/// As [`run_epsilon_search_from`], with the budget, cap, and initial
/// tolerance taken from the configuration.
pub fn run_epsilon_search<F: Fn(&gpx::Track, u64) -> Vec<Vec<usize>>, G: Fn(
    TrialTolerance,
) -> u64>(
    track: &gpx::Track,
    config: &SolverConfig,
    evaluate: &F,
    tolerance_of: &G,
) -> (o: SearchOutcome)
    requires
        forall|eps: u64| #[trigger] call_requires(*evaluate, (track, eps)),
        forall|req: TrialTolerance| #[trigger] call_requires(*tolerance_of, (req,)),
        forall|eps: u64, r: Vec<Vec<usize>>|
            call_ensures(*evaluate, (track, eps), r) ==> valid_trial_indices(r.deep_view(), *track),
    ensures
        valid_trial_indices(o.best_indices.deep_view(), *track),
        o.point_count == clamped_count(total_index_count(o.best_indices.deep_view())),
        o.met_budget == (o.point_count <= config.max_points as u64),
        1 <= o.iterations <= iteration_cap(config.max_iterations),
        !o.met_budget ==> o.iterations == iteration_cap(config.max_iterations),
        exists|eps: u64, v: Vec<Vec<usize>>|
            #[trigger] call_ensures(*evaluate, (track, eps), v) && v.deep_view()
                == o.best_indices.deep_view(),
        exists|trials: Seq<(u64, Seq<Seq<usize>>)>|
            #[trigger] admissible_trials(
                initial_model(config.max_points, config.max_iterations, config.initial_epsilon_bits),
                trials,
            ) && outcome_matches(
                o,
                run_spec(
                    initial_model(
                        config.max_points,
                        config.max_iterations,
                        config.initial_epsilon_bits,
                    ),
                    trials,
                ),
            ),
{
    run_epsilon_search_from(
        track,
        config.max_points,
        config.max_iterations,
        config.initial_epsilon_bits,
        evaluate,
        tolerance_of,
    )
}

/// Reduces one track towards the point budget, searching from the given
/// initial tolerance bit pattern.
///
/// A track whose total point count is already within the budget is
/// returned unchanged, and the primitive is not consulted for it.  Any
/// other track is replaced by the winning candidate of one finished
/// epsilon search — a result the primitive actually returned — reduced
/// along valid retained-index lists, with every track-level attribute and
/// every segment's endpoints preserved, and with the candidate's exact
/// point count.
pub fn simplify_track_from<F: Fn(&gpx::Track, u64) -> Vec<Vec<usize>>, G: Fn(
    TrialTolerance,
) -> u64>(
    track: &gpx::Track,
    max_points: u32,
    max_iterations: u32,
    initial_epsilon_bits: u64,
    evaluate: &F,
    tolerance_of: &G,
) -> (r: gpx::Track)
    requires
        forall|eps: u64| #[trigger] call_requires(*evaluate, (track, eps)),
        forall|req: TrialTolerance| #[trigger] call_requires(*tolerance_of, (req,)),
        forall|eps: u64, v: Vec<Vec<usize>>|
            call_ensures(*evaluate, (track, eps), v) ==> valid_trial_indices(v.deep_view(), *track),
    ensures
        track_reduction_result(*track, r, max_points),
        track_point_total(*track) > max_points as int ==> searched_reduction(
            *track,
            r,
            max_points,
            max_iterations,
            initial_epsilon_bits,
        ),
        track_point_total(*track) > max_points as int ==> primitive_reduction(
            *evaluate,
            *track,
            r,
        ),
{
    let ghost orig_segs = track_segments(*track);
    proof {
        lemma_total_segment_points_nonneg(orig_segs);
    }
    let total = count_points_in_track(track);
    if total <= max_points as u64 {
        assert(track_point_total(*track) <= max_points as int);
        let r = track.clone();
        assert(endpoints_preserved(*track, r));
        return r;
    }
    assert(track_point_total(*track) > max_points as int);
    let o = run_epsilon_search_from(
        track,
        max_points,
        max_iterations,
        initial_epsilon_bits,
        evaluate,
        tolerance_of,
    );
    let ghost idx = o.best_indices.deep_view();
    assert forall|i: int, k: int|
        0 <= i < o.best_indices.deep_view().len() && 0 <= k < o.best_indices.deep_view()[i].len()
            implies #[trigger] o.best_indices.deep_view()[i][k] < seg_points(
        track_segments(*track)[i],
    ).len() by {
        assert(valid_segment_indices(idx[i], seg_points(track_segments(*track)[i]).len() as int));
    }
    let r = create_track_from_indices(track, &o.best_indices);
    proof {
        assert(reduced_track(*track, r, idx));
        lemma_reduction_preserves_endpoints(*track, r, idx);
        lemma_reduced_track_point_total(*track, r, idx);
        let ghost init = initial_model(max_points, max_iterations, initial_epsilon_bits);
        let trials = choose|trials: Seq<(u64, Seq<Seq<usize>>)>|
            #[trigger] admissible_trials(init, trials) && outcome_matches(
                o,
                run_spec(init, trials),
            );
        assert(clamped_count(track_point_total(r)) == run_spec(init, trials).best_count);
        assert(searched_reduction_along(*track, r, init, trials));
        let (eps0, v0) = choose|eps: u64, v: Vec<Vec<usize>>|
            #[trigger] call_ensures(*evaluate, (track, eps), v) && v.deep_view()
                == o.best_indices.deep_view();
        assert(reduced_track(*track, r, v0.deep_view()));
        assert(primitive_reduction(*evaluate, *track, r));
    }
    r
}

/// As [`simplify_track_from`], with the budget, cap, and initial
/// tolerance taken from the configuration.
pub fn simplify_track<F: Fn(&gpx::Track, u64) -> Vec<Vec<usize>>, G: Fn(TrialTolerance) -> u64>(
    track: &gpx::Track,
    config: &SolverConfig,
    evaluate: &F,
    tolerance_of: &G,
) -> (r: gpx::Track)
    requires
        forall|eps: u64| #[trigger] call_requires(*evaluate, (track, eps)),
        forall|req: TrialTolerance| #[trigger] call_requires(*tolerance_of, (req,)),
        forall|eps: u64, v: Vec<Vec<usize>>|
            call_ensures(*evaluate, (track, eps), v) ==> valid_trial_indices(v.deep_view(), *track),
    ensures
        track_reduction_result(*track, r, config.max_points),
        track_point_total(*track) > config.max_points as int ==> searched_reduction(
            *track,
            r,
            config.max_points,
            config.max_iterations,
            config.initial_epsilon_bits,
        ),
        track_point_total(*track) > config.max_points as int ==> primitive_reduction(
            *evaluate,
            *track,
            r,
        ),
{
    simplify_track_from(
        track,
        config.max_points,
        config.max_iterations,
        config.initial_epsilon_bits,
        evaluate,
        tolerance_of,
    )
}

/// Reduces every track of a GPX document towards the point budget,
/// leaving tracks already within budget untouched and every non-track
/// field of the document unchanged.  Tracks are processed independently
/// and in order; each replaced track is the winning candidate of its own
/// finished search and a result the primitive actually returned for it.
pub fn simplify_all_tracks_in_gpx<F: Fn(&gpx::Track, u64) -> Vec<Vec<usize>>, G: Fn(
    TrialTolerance,
) -> u64>(
    gpx_data: &mut gpx::Gpx,
    config: &SolverConfig,
    evaluate: &F,
    tolerance_of: &G,
)
    requires
        forall|t: &gpx::Track, eps: u64| #[trigger] call_requires(*evaluate, (t, eps)),
        forall|req: TrialTolerance| #[trigger] call_requires(*tolerance_of, (req,)),
        forall|t: &gpx::Track, eps: u64, v: Vec<Vec<usize>>|
            call_ensures(*evaluate, (t, eps), v) ==> valid_trial_indices(v.deep_view(), *t),
    ensures
        gpx_attributes(*final(gpx_data)) == gpx_attributes(*old(gpx_data)),
        gpx_waypoints(*final(gpx_data)) == gpx_waypoints(*old(gpx_data)),
        gpx_routes(*final(gpx_data)) == gpx_routes(*old(gpx_data)),
        gpx_tracks(*final(gpx_data)).len() == gpx_tracks(*old(gpx_data)).len(),
        forall|i: int|
            0 <= i < gpx_tracks(*old(gpx_data)).len() ==> track_reduction_result(
                gpx_tracks(*old(gpx_data))[i],
                #[trigger] gpx_tracks(*final(gpx_data))[i],
                config.max_points,
            ),
        forall|i: int|
            0 <= i < gpx_tracks(*old(gpx_data)).len() && track_point_total(
                gpx_tracks(*old(gpx_data))[i],
            ) > config.max_points as int ==> searched_reduction(
                gpx_tracks(*old(gpx_data))[i],
                #[trigger] gpx_tracks(*final(gpx_data))[i],
                config.max_points,
                config.max_iterations,
                config.initial_epsilon_bits,
            ),
        forall|i: int|
            0 <= i < gpx_tracks(*old(gpx_data)).len() && track_point_total(
                gpx_tracks(*old(gpx_data))[i],
            ) > config.max_points as int ==> primitive_reduction(
                *evaluate,
                gpx_tracks(*old(gpx_data))[i],
                #[trigger] gpx_tracks(*final(gpx_data))[i],
            ),
{
    let ghost orig_tracks = gpx_tracks(*old(gpx_data));
    let tracks = gpx_take_tracks(gpx_data);
    let mut reduced: Vec<gpx::Track> = Vec::new();
    let mut i: usize = 0;
    let n = tracks.len();
    while i < n
        invariant
            n == tracks@.len(),
            tracks@ == orig_tracks,
            0 <= i <= n,
            reduced@.len() == i,
            forall|t: &gpx::Track, eps: u64| #[trigger] call_requires(*evaluate, (t, eps)),
            forall|req: TrialTolerance| #[trigger] call_requires(*tolerance_of, (req,)),
            forall|t: &gpx::Track, eps: u64, v: Vec<Vec<usize>>|
                call_ensures(*evaluate, (t, eps), v) ==> valid_trial_indices(v.deep_view(), *t),
            forall|j: int|
                0 <= j < i ==> track_reduction_result(
                    orig_tracks[j],
                    #[trigger] reduced@[j],
                    config.max_points,
                ),
            forall|j: int|
                0 <= j < i && track_point_total(orig_tracks[j]) > config.max_points as int
                    ==> searched_reduction(
                    orig_tracks[j],
                    #[trigger] reduced@[j],
                    config.max_points,
                    config.max_iterations,
                    config.initial_epsilon_bits,
                ),
            forall|j: int|
                0 <= j < i && track_point_total(orig_tracks[j]) > config.max_points as int
                    ==> primitive_reduction(*evaluate, orig_tracks[j], #[trigger] reduced@[j]),
        decreases n - i,
    {
        let current = &tracks[i];
        let t = simplify_track(current, config, evaluate, tolerance_of);
        reduced.push(t);
        i = i + 1;
    }
    gpx_set_tracks(gpx_data, reduced);
}

} // verus!
