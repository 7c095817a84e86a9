//! Interval-halving root search, stated over an abstract value type.
//!
//! The solver keeps a bracket: an interval whose two endpoints carry cached
//! function values with opposite sign classes. Each iteration observes the
//! midpoint, its function value, and three verdicts about them (two
//! convergence verdicts and one sign class), then either stops or keeps the
//! half of the interval whose endpoints still disagree in sign. The numeric
//! work — evaluating the function, forming midpoints, classifying signs —
//! is supplied by the caller through closures; every decision taken on those
//! observations is made here and is verified.

use vstd::prelude::*;

verus! {

/// The state carried across iterations: the current interval `[a, b]`, the
/// cached function values `fa = f(a)` and `fb = f(b)`, and the sign class of
/// each cached value (`true` means strictly positive).
#[derive(Clone, Copy)]
pub struct Bracket<T> {
    pub a: T,
    pub b: T,
    pub fa: T,
    pub fb: T,
    pub fa_pos: bool,
    pub fb_pos: bool,
}

/// One iteration's observation: the midpoint `m` of the current interval,
/// its function value `fm`, and three verdicts computed from them —
/// whether half the interval width is below tolerance, whether `|fm|` is
/// below tolerance, and the sign class of `fm`.
#[derive(Clone, Copy)]
pub struct Eval<T> {
    pub m: T,
    pub fm: T,
    pub half_width_small: bool,
    pub fm_small: bool,
    pub fm_pos: bool,
}

/// The three ways a search can fail, each carrying the values a caller
/// needs to diagnose it.
#[derive(Clone, Copy, Debug)]
pub enum SolveError<T> {
    /// The supplied interval was not strictly increasing.
    InvalidInterval { lo: T, hi: T },
    /// The boundary values share a sign class, so the interval does not
    /// bracket a sign change.
    NoSignChange { lo: T, hi: T },
    /// The iteration budget ran out; `lo` and `hi` are the final interval.
    NoConvergence { budget: usize, lo: T, hi: T },
}

/// The outcome of one iteration: either the search stops at the midpoint,
/// or the bracket is narrowed to one half.
#[derive(Clone, Copy)]
pub enum Step<T> {
    Converged { root: T, froot: T },
    Narrowed { next: Bracket<T> },
}

/// An observation stops the search when either convergence verdict holds.
pub open spec fn ev_stops<T>(ev: Eval<T>) -> bool {
    ev.half_width_small || ev.fm_small
}

/// The narrowing rule: when the midpoint's sign class matches the right
/// endpoint's, the right endpoint moves to the midpoint; otherwise the left
/// endpoint does. Either way the retained endpoints disagree in sign
/// whenever the old ones did.
pub open spec fn narrowed<T>(ctx: Bracket<T>, ev: Eval<T>) -> Bracket<T> {
    if ev.fm_pos == ctx.fb_pos {
        Bracket { a: ctx.a, b: ev.m, fa: ctx.fa, fb: ev.fm, fa_pos: ctx.fa_pos, fb_pos: ev.fm_pos }
    } else {
        Bracket { a: ev.m, b: ctx.b, fa: ev.fm, fb: ctx.fb, fa_pos: ev.fm_pos, fb_pos: ctx.fb_pos }
    }
}

/// What one iteration does with an observation.
pub open spec fn step_model<T>(ctx: Bracket<T>, ev: Eval<T>) -> Step<T> {
    if ev_stops(ev) {
        Step::Converged { root: ev.m, froot: ev.fm }
    } else {
        Step::Narrowed { next: narrowed(ctx, ev) }
    }
}

/// The bracket reached from `init` after narrowing by each observation of
/// `evs` in order.
pub open spec fn run<T>(init: Bracket<T>, evs: Seq<Eval<T>>) -> Bracket<T>
    decreases evs.len(),
{
    if evs.len() == 0 {
        init
    } else {
        narrowed(run(init, evs.drop_last()), evs.last())
    }
}

/// A trace is consistent with an evaluator when each observation in it is an
/// admissible output of the evaluator at the bracket reached by the
/// observations before it.
pub open spec fn consistent<T, F: Fn(T, T) -> Eval<T>>(
    eval: F,
    init: Bracket<T>,
    evs: Seq<Eval<T>>,
) -> bool
    decreases evs.len(),
{
    if evs.len() == 0 {
        true
    } else {
        let head = evs.drop_last();
        consistent(eval, init, head) && call_ensures(
            eval,
            (run(init, head).a, run(init, head).b),
            evs.last(),
        )
    }
}

/// No observation strictly before index `n` stops the search.
pub open spec fn no_stop_before<T>(evs: Seq<Eval<T>>, n: int) -> bool {
    forall|i: int| 0 <= i < n ==> !ev_stops(#[trigger] evs[i])
}

/// An evaluator is deterministic when its contract admits at most one
/// observation for each interval.
pub open spec fn deterministic<T, F: Fn(T, T) -> Eval<T>>(eval: F) -> bool {
    forall|x: T, y: T, r1: Eval<T>, r2: Eval<T>|
        #![trigger call_ensures(eval, (x, y), r1), call_ensures(eval, (x, y), r2)]
        call_ensures(eval, (x, y), r1) && call_ensures(eval, (x, y), r2) ==> r1 == r2
}

/// A ghost record of what a whole search observed: the two boundary
/// evaluations with their sign classes, and the per-iteration observations
/// in order.
pub struct Trace<T> {
    pub fa: T,
    pub fb: T,
    pub fa_pos: bool,
    pub fb_pos: bool,
    pub evs: Seq<Eval<T>>,
}

impl<T> Trace<T> {
    /// The bracket the iteration started from, for a given interval.
    pub open spec fn start(self, a: T, b: T) -> Bracket<T> {
        Bracket { a, b, fa: self.fa, fb: self.fb, fa_pos: self.fa_pos, fb_pos: self.fb_pos }
    }
}

/// What the iteration phase returns, given the observations it made: a
/// success carries the midpoint of the first stopping observation, reached
/// within the budget with no earlier stop; a failure means the whole budget
/// was spent with no stopping observation, and reports the budget together
/// with the final interval.
pub open spec fn iteration_post<T, F: Fn(T, T) -> Eval<T>>(
    eval: F,
    init: Bracket<T>,
    max_iter: usize,
    res: Result<T, SolveError<T>>,
    evs: Seq<Eval<T>>,
) -> bool {
    &&& consistent(eval, init, evs)
    &&& match res {
        Ok(root) => {
            &&& 1 <= evs.len() <= max_iter
            &&& no_stop_before(evs, evs.len() as int - 1)
            &&& ev_stops(evs.last())
            &&& root == evs.last().m
        },
        Err(e) => {
            &&& evs.len() == max_iter
            &&& no_stop_before(evs, evs.len() as int)
            &&& e == (SolveError::NoConvergence {
                budget: max_iter,
                lo: run(init, evs).a,
                hi: run(init, evs).b,
            })
        },
    }
}

/// The whole contract of `solve`, relative to the returned trace: an
/// unordered interval is rejected before anything is evaluated; otherwise
/// the trace records admissible boundary evaluations, equal boundary sign
/// classes are rejected before any iteration, and otherwise the result is
/// what the iteration phase returns for the recorded observations.
pub open spec fn solve_post<T, B: Fn(T) -> (T, bool), F: Fn(T, T) -> Eval<T>>(
    boundary: B,
    eval: F,
    a: T,
    b: T,
    a_lt_b: bool,
    max_iter: usize,
    res: Result<T, SolveError<T>>,
    tr: Trace<T>,
) -> bool {
    if !a_lt_b {
        res == Err::<T, SolveError<T>>(SolveError::InvalidInterval { lo: a, hi: b })
    } else {
        &&& call_ensures(boundary, (a,), (tr.fa, tr.fa_pos))
        &&& call_ensures(boundary, (b,), (tr.fb, tr.fb_pos))
        &&& if tr.fa_pos == tr.fb_pos {
            res == Err::<T, SolveError<T>>(SolveError::NoSignChange { lo: a, hi: b })
        } else {
            iteration_post(eval, tr.start(a, b), max_iter, res, tr.evs)
        }
    }
}

impl<T: Copy> Bracket<T> {
    /// Build a bracket from endpoints, their cached values and sign classes.
    pub fn new(a: T, b: T, fa: T, fb: T, fa_pos: bool, fb_pos: bool) -> (r: Bracket<T>)
        ensures
            r == (Bracket { a, b, fa, fb, fa_pos, fb_pos }),
    {
        Bracket { a, b, fa, fb, fa_pos, fb_pos }
    }
}

/// Perform one iteration's decision on an observation: stop at the midpoint
/// if either convergence verdict holds, otherwise keep the half of the
/// interval whose endpoints still differ in sign class.
pub fn narrow_step<T: Copy>(ctx: Bracket<T>, ev: Eval<T>) -> (r: Step<T>)
    ensures
        r == step_model(ctx, ev),
{
    if ev.half_width_small || ev.fm_small {
        Step::Converged { root: ev.m, froot: ev.fm }
    } else if ev.fm_pos == ctx.fb_pos {
        Step::Narrowed {
            next: Bracket {
                a: ctx.a,
                b: ev.m,
                fa: ctx.fa,
                fb: ev.fm,
                fa_pos: ctx.fa_pos,
                fb_pos: ev.fm_pos,
            },
        }
    } else {
        Step::Narrowed {
            next: Bracket {
                a: ev.m,
                b: ctx.b,
                fa: ev.fm,
                fb: ctx.fb,
                fa_pos: ev.fm_pos,
                fb_pos: ctx.fb_pos,
            },
        }
    }
}

/// Run the whole search. `boundary` maps a point to its function value and
/// sign class; `eval` maps an interval to the observation of its midpoint;
/// `a_lt_b` is the caller's verdict on whether the interval is strictly
/// increasing; `max_iter` bounds the number of narrowing iterations.
///
/// The returned ghost trace certifies the result: every recorded
/// observation is an admissible output of the supplied closures at the
/// point where it was made, and the result is exactly what the rules of
/// the search dictate for those observations (see `solve_post`).
#[verifier::loop_isolation(false)]
pub fn solve<T: Copy, B: Fn(T) -> (T, bool), F: Fn(T, T) -> Eval<T>>(
    boundary: B,
    eval: F,
    a: T,
    b: T,
    a_lt_b: bool,
    max_iter: usize,
) -> (r: (Result<T, SolveError<T>>, Ghost<Trace<T>>))
    requires
        forall|x: T| #[trigger] call_requires(boundary, (x,)),
        forall|x: T, y: T| #[trigger] call_requires(eval, (x, y)),
    ensures
        solve_post(boundary, eval, a, b, a_lt_b, max_iter, r.0, r.1@),
{
    if !a_lt_b {
        return (Err(SolveError::InvalidInterval { lo: a, hi: b }), Ghost(arbitrary()));
    }
    let (fa, fa_pos) = boundary(a);
    let (fb, fb_pos) = boundary(b);
    if fa_pos == fb_pos {
        let ghost tr = Trace { fa, fb, fa_pos, fb_pos, evs: Seq::empty() };
        return (Err(SolveError::NoSignChange { lo: a, hi: b }), Ghost(tr));
    }
    let mut ctx = Bracket { a, b, fa, fb, fa_pos, fb_pos };
    let ghost init = ctx;
    let ghost mut evs: Seq<Eval<T>> = Seq::empty();
    let mut i: usize = 0;
    while i < max_iter
        invariant
            i <= max_iter,
            evs.len() == i,
            consistent(eval, init, evs),
            no_stop_before(evs, evs.len() as int),
            ctx == run(init, evs),
        decreases max_iter - i,
    {
        let ev = eval(ctx.a, ctx.b);
        let ghost prev = evs;
        proof {
            evs = evs.push(ev);
            assert(evs.drop_last() =~= prev);
        }
        match narrow_step(ctx, ev) {
            Step::Converged { root, froot: _ } => {
                proof {
                    assert forall|j: int| 0 <= j < evs.len() - 1 implies !ev_stops(
                        #[trigger] evs[j],
                    ) by {
                        assert(evs[j] == prev[j]);
                    }
                }
                let ghost tr = Trace { fa, fb, fa_pos, fb_pos, evs };
                return (Ok(root), Ghost(tr));
            },
            Step::Narrowed { next } => {
                ctx = next;
                i = i + 1;
                proof {
                    assert forall|j: int| 0 <= j < evs.len() implies !ev_stops(
                        #[trigger] evs[j],
                    ) by {
                        if j < evs.len() - 1 {
                            assert(evs[j] == prev[j]);
                        }
                    }
                }
            },
        }
    }
    let ghost tr = Trace { fa, fb, fa_pos, fb_pos, evs };
    (Err(SolveError::NoConvergence { budget: max_iter, lo: ctx.a, hi: ctx.b }), Ghost(tr))
}

} // verus!
