//! The bounded-iteration epsilon search.
//!
//! Given a point budget, the search looks for a simplification tolerance
//! that brings a track's total retained point count as close as possible to
//! the budget from below.  The search itself never computes with
//! tolerances: a tolerance travels through it as an opaque IEEE 754 bit
//! pattern (`u64`), and whenever the search needs a new trial tolerance it
//! asks for one as a [`TrialTolerance`] request — either double a known
//! value (bracket expansion) or the midpoint of the current bracket
//! (bisection).  The collaborator that owns the floating-point arithmetic
//! and the simplification primitive answers each request with the computed
//! bit pattern and the per-segment retained indices; [`EpsilonSearch::record_trial`]
//! folds the answer into the state.
//!
//! Every transition is mirrored by the specification function [`step_spec`]
//! over the abstract [`SearchModel`], so the search's behaviour is pinned
//! down as a pure function of its configuration and of the sequence of
//! trial results it observes.

use vstd::prelude::*;

use crate::counting::{clamped_count, count_points_in_simplified_segment_indices,
    total_index_count};

verus! {

/// A request for the next trial tolerance, to be computed by the caller:
/// either twice the given tolerance, or the midpoint of the two given
/// tolerances.  All values are IEEE 754 double bit patterns.
#[derive(Clone, Copy, Debug, PartialEq, Eq, Structural)]
pub enum TrialTolerance {
    DoubleOf(u64),
    MidpointOf(u64, u64),
}

/// The abstract state of one epsilon search.
#[verifier::ext_equal]
pub ghost struct SearchModel {
    /// The inclusive point budget.
    pub max_points: u32,
    /// The cap on trial evaluations over both phases.
    pub max_iterations: u32,
    /// Bit pattern of the lower bracket bound.
    pub min_eps_bits: u64,
    /// Bit pattern of the upper bracket bound.  While expanding, the
    /// tolerance whose doubling is requested next.
    pub max_eps_bits: u64,
    /// Trial evaluations recorded so far.
    pub iterations: u32,
    /// True while the bracket-expansion phase is running.
    pub expanding: bool,
    /// The best per-segment retained-index lists found so far.
    pub best_indices: Seq<Seq<usize>>,
    /// The total point count of `best_indices`.
    pub best_count: u64,
}

/// How many evaluations a search may perform at most: the expansion phase
/// always evaluates at least once, so a zero iteration cap still costs one
/// evaluation, exactly as a cap of one does.
pub open spec fn iteration_cap(max_iterations: u32) -> u32 {
    if max_iterations == 0 {
        1
    } else {
        max_iterations
    }
}

/// The state a search starts in: an empty best candidate, the bracket
/// `[0, initial_epsilon]`, and the expansion phase about to double the
/// upper bound into `2 * initial_epsilon` for the first trial.
pub open spec fn initial_model(max_points: u32, max_iterations: u32, initial_epsilon_bits: u64)
    -> SearchModel {
    SearchModel {
        max_points,
        max_iterations,
        min_eps_bits: 0,
        max_eps_bits: initial_epsilon_bits,
        iterations: 0,
        expanding: true,
        best_indices: Seq::<Seq<usize>>::empty(),
        best_count: 0,
    }
}

/// The trial the search wants evaluated next, if any.
pub open spec fn pending_spec(m: SearchModel) -> Option<TrialTolerance> {
    if m.expanding {
        Some(TrialTolerance::DoubleOf(m.max_eps_bits))
    } else if m.iterations < m.max_iterations && m.best_count < m.max_points as u64 {
        Some(TrialTolerance::MidpointOf(m.min_eps_bits, m.max_eps_bits))
    } else {
        None
    }
}

/// One transition of the search: fold in the trial that was evaluated at
/// the tolerance with bit pattern `eps_bits` and retained `idx`.
///
/// While expanding, the latest trial always replaces the best candidate
/// and the phase ends once the trial fits the budget or the iteration cap
/// is reached.  While bisecting, the candidate-acceptance rule applies: the
/// trial becomes the new best exactly when the current best exceeds the
/// budget and the trial retains fewer points, or when the trial retains
/// more points than the best without exceeding the budget.  The bracket
/// then lowers its upper bound to the trial tolerance when the trial
/// retained fewer points than the budget (the tolerance was too
/// aggressive), and raises its lower bound to it otherwise.
pub open spec fn step_spec(m: SearchModel, eps_bits: u64, idx: Seq<Seq<usize>>) -> SearchModel {
    let new_count = clamped_count(total_index_count(idx));
    let iters = (m.iterations + 1) as u32;
    if m.expanding {
        SearchModel {
            max_eps_bits: eps_bits,
            iterations: iters,
            expanding: new_count > m.max_points as u64 && iters < m.max_iterations,
            best_indices: idx,
            best_count: new_count,
            ..m
        }
    } else {
        let accept = (m.best_count > m.max_points as u64 && new_count < m.best_count) || (new_count
            > m.best_count && new_count <= m.max_points as u64);
        SearchModel {
            min_eps_bits: if new_count < m.max_points as u64 {
                m.min_eps_bits
            } else {
                eps_bits
            },
            max_eps_bits: if new_count < m.max_points as u64 {
                eps_bits
            } else {
                m.max_eps_bits
            },
            iterations: iters,
            expanding: false,
            best_indices: if accept {
                idx
            } else {
                m.best_indices
            },
            best_count: if accept {
                new_count
            } else {
                m.best_count
            },
            ..m
        }
    }
}

/// The search state reached from `m` after folding in every trial of
/// `trials` in order.
pub open spec fn run_spec(m: SearchModel, trials: Seq<(u64, Seq<Seq<usize>>)>) -> SearchModel
    decreases trials.len(),
{
    if trials.len() == 0 {
        m
    } else {
        run_spec(step_spec(m, trials[0].0, trials[0].1), trials.drop_first())
    }
}

/// A trial sequence a search can actually observe: each trial is recorded
/// in a state that still has a pending request.
pub open spec fn admissible_trials(m: SearchModel, trials: Seq<(u64, Seq<Seq<usize>>)>) -> bool
    decreases trials.len(),
{
    trials.len() == 0 || (pending_spec(m) is Some && admissible_trials(
        step_spec(m, trials[0].0, trials[0].1),
        trials.drop_first(),
    ))
}

/// Folding one more trial into a run is one more step.
pub proof fn lemma_run_spec_snoc(
    m: SearchModel,
    trials: Seq<(u64, Seq<Seq<usize>>)>,
    eps_bits: u64,
    idx: Seq<Seq<usize>>,
)
    ensures
        run_spec(m, trials.push((eps_bits, idx))) == step_spec(run_spec(m, trials), eps_bits, idx),
    decreases trials.len(),
{
    let extended = trials.push((eps_bits, idx));
    if trials.len() == 0 {
        assert(extended[0] == (eps_bits, idx));
        assert(extended.drop_first() =~= Seq::<(u64, Seq<Seq<usize>>)>::empty());
        assert(run_spec(m, trials) == m);
        assert(run_spec(m, extended) == run_spec(
            step_spec(m, extended[0].0, extended[0].1),
            extended.drop_first(),
        ));
        assert(run_spec(m, extended) == step_spec(m, eps_bits, idx));
    } else {
        assert(extended[0] == trials[0]);
        assert(extended.drop_first() =~= trials.drop_first().push((eps_bits, idx)));
        lemma_run_spec_snoc(step_spec(m, trials[0].0, trials[0].1), trials.drop_first(), eps_bits, idx);
        assert(run_spec(m, extended) == run_spec(
            step_spec(m, extended[0].0, extended[0].1),
            extended.drop_first(),
        ));
        assert(run_spec(m, trials) == run_spec(step_spec(m, trials[0].0, trials[0].1), trials.drop_first()));
    }
}

/// A trial observed in a state with a pending request extends an
/// admissible trial sequence into an admissible one.
pub proof fn lemma_admissible_snoc(
    m: SearchModel,
    trials: Seq<(u64, Seq<Seq<usize>>)>,
    eps_bits: u64,
    idx: Seq<Seq<usize>>,
)
    requires
        admissible_trials(m, trials),
        pending_spec(run_spec(m, trials)) is Some,
    ensures
        admissible_trials(m, trials.push((eps_bits, idx))),
    decreases trials.len(),
{
    let extended = trials.push((eps_bits, idx));
    if trials.len() == 0 {
        assert(extended[0] == (eps_bits, idx));
        assert(extended.drop_first() =~= Seq::<(u64, Seq<Seq<usize>>)>::empty());
        assert(admissible_trials(step_spec(m, eps_bits, idx), extended.drop_first()));
    } else {
        assert(extended[0] == trials[0]);
        assert(extended.drop_first() =~= trials.drop_first().push((eps_bits, idx)));
        lemma_admissible_snoc(
            step_spec(m, trials[0].0, trials[0].1),
            trials.drop_first(),
            eps_bits,
            idx,
        );
    }
}

/// The invariant every reachable search state satisfies.
pub open spec fn wf_model(m: SearchModel) -> bool {
    &&& m.best_count == clamped_count(total_index_count(m.best_indices))
    &&& m.iterations <= iteration_cap(m.max_iterations)
    &&& m.expanding ==> m.iterations == 0 || (m.best_count > m.max_points as u64 && m.iterations
        < m.max_iterations)
    &&& !m.expanding ==> m.iterations >= 1
    &&& (!m.expanding && m.best_count > m.max_points as u64) ==> m.iterations == iteration_cap(
        m.max_iterations,
    )
}

/// A step taken on a pending request preserves the invariant.
pub proof fn lemma_step_preserves_wf(m: SearchModel, eps_bits: u64, idx: Seq<Seq<usize>>)
    requires
        wf_model(m),
        pending_spec(m) is Some,
    ensures
        wf_model(step_spec(m, eps_bits, idx)),
{
}

/// A trial that fits the budget makes the best candidate fit the budget,
/// and afterwards the search is no longer expanding.
pub proof fn lemma_step_reaches_budget(m: SearchModel, eps_bits: u64, idx: Seq<Seq<usize>>)
    requires
        wf_model(m),
        pending_spec(m) is Some,
        clamped_count(total_index_count(idx)) <= m.max_points as u64,
    ensures
        step_spec(m, eps_bits, idx).best_count <= m.max_points as u64,
        !step_spec(m, eps_bits, idx).expanding,
{
}

/// Once the best candidate fits the budget after the expansion phase, no
/// later trial can push it back over the budget.
pub proof fn lemma_step_keeps_budget(m: SearchModel, eps_bits: u64, idx: Seq<Seq<usize>>)
    requires
        wf_model(m),
        !m.expanding,
        m.best_count <= m.max_points as u64,
    ensures
        step_spec(m, eps_bits, idx).best_count <= m.max_points as u64,
        !step_spec(m, eps_bits, idx).expanding,
{
}

/// The invariant holds along any admissible run.
pub proof fn lemma_run_preserves_wf(m: SearchModel, trials: Seq<(u64, Seq<Seq<usize>>)>)
    requires
        wf_model(m),
        admissible_trials(m, trials),
    ensures
        wf_model(run_spec(m, trials)),
    decreases trials.len(),
{
    if trials.len() > 0 {
        lemma_step_preserves_wf(m, trials[0].0, trials[0].1);
        lemma_run_preserves_wf(step_spec(m, trials[0].0, trials[0].1), trials.drop_first());
    }
}

/// Once the expansion phase has ended on a best candidate within the
/// budget, the best count never decreases over the rest of the run.
pub proof fn lemma_run_best_monotone(m: SearchModel, trials: Seq<(u64, Seq<Seq<usize>>)>)
    requires
        wf_model(m),
        admissible_trials(m, trials),
        !m.expanding,
        m.best_count <= m.max_points as u64,
    ensures
        run_spec(m, trials).best_count >= m.best_count,
        run_spec(m, trials).best_count <= m.max_points as u64,
    decreases trials.len(),
{
    if trials.len() > 0 {
        lemma_step_preserves_wf(m, trials[0].0, trials[0].1);
        lemma_step_keeps_budget(m, trials[0].0, trials[0].1);
        lemma_run_best_monotone(step_spec(m, trials[0].0, trials[0].1), trials.drop_first());
    }
}

/// The final best count is at least the count of every trial that fits
/// the budget: together with [`lemma_budget_respected`], the search ends
/// on the largest retained count among the within-budget trials it
/// observed.
pub proof fn lemma_fitting_trial_bounds(
    m: SearchModel,
    trials: Seq<(u64, Seq<Seq<usize>>)>,
    i: int,
)
    requires
        wf_model(m),
        admissible_trials(m, trials),
        0 <= i < trials.len(),
        clamped_count(total_index_count(trials[i].1)) <= m.max_points as u64,
    ensures
        run_spec(m, trials).best_count >= clamped_count(total_index_count(trials[i].1)),
    decreases trials.len(),
{
    let m2 = step_spec(m, trials[0].0, trials[0].1);
    lemma_step_preserves_wf(m, trials[0].0, trials[0].1);
    if i == 0 {
        lemma_step_reaches_budget(m, trials[0].0, trials[0].1);
        assert(m2.best_count >= clamped_count(total_index_count(trials[0].1)));
        lemma_run_best_monotone(m2, trials.drop_first());
    } else {
        assert(trials.drop_first()[i - 1] == trials[i]);
        lemma_fitting_trial_bounds(m2, trials.drop_first(), i - 1);
    }
}

/// Budget respect: if any trial a search observes fits the point budget,
/// the final best candidate fits the point budget; the search never ends
/// on an over-budget best while a within-budget trial was seen.
pub proof fn lemma_budget_respected(m: SearchModel, trials: Seq<(u64, Seq<Seq<usize>>)>)
    requires
        wf_model(m),
        admissible_trials(m, trials),
        (exists|i: int|
            0 <= i < trials.len() && clamped_count(total_index_count(#[trigger] trials[i].1))
                <= m.max_points as u64) || (!m.expanding && m.best_count <= m.max_points as u64),
    ensures
        run_spec(m, trials).best_count <= m.max_points as u64,
    decreases trials.len(),
{
    if trials.len() == 0 {
    } else {
        let m2 = step_spec(m, trials[0].0, trials[0].1);
        let rest = trials.drop_first();
        lemma_step_preserves_wf(m, trials[0].0, trials[0].1);
        if !m.expanding && m.best_count <= m.max_points as u64 {
            lemma_step_keeps_budget(m, trials[0].0, trials[0].1);
            lemma_budget_respected(m2, rest);
        } else if clamped_count(total_index_count(trials[0].1)) <= m.max_points as u64 {
            lemma_step_reaches_budget(m, trials[0].0, trials[0].1);
            lemma_budget_respected(m2, rest);
        } else {
            let i = choose|i: int|
                0 <= i < trials.len() && clamped_count(total_index_count(#[trigger] trials[i].1))
                    <= m.max_points as u64;
            assert(i >= 1);
            assert(rest[i - 1] == trials[i]);
            lemma_budget_respected(m2, rest);
        }
    }
}

/// Each step replaces the best candidate by the observed trial or keeps it.
pub proof fn lemma_step_best_from_trials(m: SearchModel, eps_bits: u64, idx: Seq<Seq<usize>>)
    ensures
        step_spec(m, eps_bits, idx).best_indices == idx || step_spec(m, eps_bits, idx).best_indices
            == m.best_indices,
{
}

/// The final best candidate is one of the observed trials, unless no
/// trial ever replaced the starting candidate.  Together with
/// [`lemma_fitting_trial_bounds`] and [`lemma_budget_respected`], a run
/// that observed a within-budget trial ends on the within-budget trial
/// candidate with the largest retained count.
pub proof fn lemma_run_best_from_trials(m: SearchModel, trials: Seq<(u64, Seq<Seq<usize>>)>)
    ensures
        run_spec(m, trials).best_indices == m.best_indices || (exists|i: int|
            0 <= i < trials.len() && run_spec(m, trials).best_indices == #[trigger] trials[i].1),
    decreases trials.len(),
{
    if trials.len() > 0 {
        let m2 = step_spec(m, trials[0].0, trials[0].1);
        lemma_step_best_from_trials(m, trials[0].0, trials[0].1);
        lemma_run_best_from_trials(m2, trials.drop_first());
        let fin = run_spec(m, trials);
        if fin.best_indices == m2.best_indices {
            if m2.best_indices == trials[0].1 {
                assert(fin.best_indices == trials[0].1);
            }
        } else {
            let i = choose|i: int|
                0 <= i < trials.drop_first().len() && fin.best_indices == #[trigger] trials.drop_first()[i].1;
            assert(trials.drop_first()[i] == trials[i + 1]);
        }
    }
}

/// Determinism of the search: the final state is a pure function of the
/// starting state and of the sequence of observed trials, so two searches
/// begun from the same configuration and fed the same trial results end
/// in the same state, with the same best candidate.
pub proof fn lemma_search_deterministic(
    m1: SearchModel,
    m2: SearchModel,
    trials1: Seq<(u64, Seq<Seq<usize>>)>,
    trials2: Seq<(u64, Seq<Seq<usize>>)>,
)
    requires
        m1 == m2,
        trials1 == trials2,
    ensures
        run_spec(m1, trials1) == run_spec(m2, trials2),
{
}

/// The outcome of a finished search.
pub struct SearchOutcome {
    /// The winning per-segment retained-index lists.
    pub best_indices: Vec<Vec<usize>>,
    /// The total point count of `best_indices`.
    pub point_count: u64,
    /// Whether the point budget was met.
    pub met_budget: bool,
    /// How many trial evaluations were recorded.
    pub iterations: u32,
}

/// One in-progress epsilon search.
pub struct EpsilonSearch {
    /// The inclusive point budget.
    pub max_points: u32,
    /// The cap on trial evaluations over both phases.
    pub max_iterations: u32,
    /// Bit pattern of the lower bracket bound.
    pub min_eps_bits: u64,
    /// Bit pattern of the upper bracket bound.
    pub max_eps_bits: u64,
    /// Trial evaluations recorded so far.
    pub iterations: u32,
    /// True while the bracket-expansion phase is running.
    pub expanding: bool,
    /// The best per-segment retained-index lists found so far.
    pub best_indices: Vec<Vec<usize>>,
    /// The total point count of `best_indices`.
    pub best_count: u64,
}

impl EpsilonSearch {
    /// The abstract state this search is in.
    pub open spec fn model(self) -> SearchModel {
        SearchModel {
            max_points: self.max_points,
            max_iterations: self.max_iterations,
            min_eps_bits: self.min_eps_bits,
            max_eps_bits: self.max_eps_bits,
            iterations: self.iterations,
            expanding: self.expanding,
            best_indices: self.best_indices.deep_view(),
            best_count: self.best_count,
        }
    }

    /// The invariant of a reachable search.
    pub open spec fn wf(self) -> bool {
        wf_model(self.model())
    }

    /// Starts a search over the bracket `[0, 2 * initial_epsilon]`;
    /// `initial_epsilon_bits` is the IEEE 754 bit pattern of the intended
    /// bracket midpoint, and the all-zero pattern encodes the zero lower
    /// bound.
    pub fn begin(max_points: u32, max_iterations: u32, initial_epsilon_bits: u64) -> (s: Self)
        ensures
            s.wf(),
            s.model() == initial_model(max_points, max_iterations, initial_epsilon_bits),
    {
        let s = EpsilonSearch {
            max_points,
            max_iterations,
            min_eps_bits: 0,
            max_eps_bits: initial_epsilon_bits,
            iterations: 0,
            expanding: true,
            best_indices: Vec::new(),
            best_count: 0,
        };
        proof {
            assert(s.best_indices.deep_view() =~= Seq::<Seq<usize>>::empty());
            assert(s.model() =~= initial_model(max_points, max_iterations, initial_epsilon_bits));
        }
        s
    }

    /// The trial this search wants evaluated next; `None` once the search
    /// is finished.
    pub fn pending_request(&self) -> (r: Option<TrialTolerance>)
        ensures
            r == pending_spec(self.model()),
    {
        if self.expanding {
            Some(TrialTolerance::DoubleOf(self.max_eps_bits))
        } else if self.iterations < self.max_iterations && self.best_count < self.max_points
            as u64 {
            Some(TrialTolerance::MidpointOf(self.min_eps_bits, self.max_eps_bits))
        } else {
            None
        }
    }

    /// Records the answer to the pending request: the tolerance that was
    /// evaluated (as its bit pattern) and the per-segment retained
    /// indices it produced.
    pub fn record_trial(&mut self, eps_bits: u64, indices_per_segment: Vec<Vec<usize>>)
        requires
            old(self).wf(),
            pending_spec(old(self).model()) is Some,
        ensures
            final(self).wf(),
            final(self).model() == step_spec(
                old(self).model(),
                eps_bits,
                indices_per_segment.deep_view(),
            ),
    {
        let ghost m = self.model();
        let ghost dv = indices_per_segment.deep_view();
        let new_count = count_points_in_simplified_segment_indices(&indices_per_segment);
        assert(self.iterations < u32::MAX);
        self.iterations = self.iterations + 1;
        if self.expanding {
            self.max_eps_bits = eps_bits;
            self.best_indices = indices_per_segment;
            self.best_count = new_count;
            self.expanding = new_count > self.max_points as u64 && self.iterations
                < self.max_iterations;
        } else {
            let accept = (self.best_count > self.max_points as u64 && new_count < self.best_count)
                || (new_count > self.best_count && new_count <= self.max_points as u64);
            if accept {
                self.best_indices = indices_per_segment;
                self.best_count = new_count;
            }
            if new_count < self.max_points as u64 {
                self.max_eps_bits = eps_bits;
            } else {
                self.min_eps_bits = eps_bits;
            }
        }
        proof {
            lemma_step_preserves_wf(m, eps_bits, dv);
            assert(self.model() =~= step_spec(m, eps_bits, dv));
        }
    }

    /// Finishes the search and hands out the best candidate found,
    /// its point count, whether the budget was met, and how many
    /// evaluations were spent.  A finished search has spent at least one
    /// evaluation and no more than the iteration cap, and it has spent
    /// the whole cap whenever the budget was not met.
    pub fn into_outcome(self) -> (o: SearchOutcome)
        requires
            self.wf(),
            pending_spec(self.model()) is None,
        ensures
            o.best_indices.deep_view() == self.model().best_indices,
            o.point_count == self.model().best_count,
            o.point_count == clamped_count(total_index_count(o.best_indices.deep_view())),
            o.iterations == self.model().iterations,
            o.met_budget == (o.point_count <= self.model().max_points as u64),
            1 <= o.iterations <= iteration_cap(self.model().max_iterations),
            !o.met_budget ==> o.iterations == iteration_cap(self.model().max_iterations),
    {
        let met_budget = self.best_count <= self.max_points as u64;
        SearchOutcome {
            best_indices: self.best_indices,
            point_count: self.best_count,
            met_budget,
            iterations: self.iterations,
        }
    }
}

} // verus!
