//! Laws of the narrowing model: bracketing is preserved, traces of a
//! deterministic evaluator agree, and the iteration budget flips the outcome
//! at a single threshold.

use crate::solver::{consistent, deterministic, ev_stops, no_stop_before, run, Bracket, Eval};
use vstd::prelude::*;

verus! {

/// Law: bracketing is preserved. If the initial endpoints disagree in sign
/// class, then after any number of narrowing steps the current endpoints
/// still disagree in sign class.
pub proof fn lemma_bracketing_preserved<T>(init: Bracket<T>, evs: Seq<Eval<T>>, i: int)
    requires
        init.fa_pos != init.fb_pos,
        0 <= i <= evs.len(),
    ensures
        run(init, evs.take(i)).fa_pos != run(init, evs.take(i)).fb_pos,
    decreases i,
{
    if i == 0 {
        assert(evs.take(0) =~= Seq::<Eval<T>>::empty());
    } else {
        lemma_bracketing_preserved(init, evs, i - 1);
        assert(evs.take(i).drop_last() =~= evs.take(i - 1));
        assert(evs.take(i).last() == evs[i - 1]);
    }
}

/// Law: a consistent trace records, at each index, an admissible output of
/// the evaluator at the bracket reached by the observations before it.
pub proof fn lemma_consistent_index<T, F: Fn(T, T) -> Eval<T>>(
    eval: F,
    init: Bracket<T>,
    evs: Seq<Eval<T>>,
    i: int,
)
    requires
        consistent(eval, init, evs),
        0 <= i < evs.len(),
    ensures
        call_ensures(eval, (run(init, evs.take(i)).a, run(init, evs.take(i)).b), evs[i]),
    decreases evs.len(),
{
    if i == evs.len() - 1 {
        assert(evs.take(i) =~= evs.drop_last());
    } else {
        lemma_consistent_index(eval, init, evs.drop_last(), i);
        assert(evs.drop_last().take(i) =~= evs.take(i));
        assert(evs.drop_last()[i] == evs[i]);
    }
}

/// Law: a deterministic evaluator drives the search along a single path.
/// Two traces consistent with it from the same start agree observation for
/// observation, as far as the shorter one reaches.
pub proof fn lemma_deterministic_prefix<T, F: Fn(T, T) -> Eval<T>>(
    eval: F,
    init: Bracket<T>,
    t1: Seq<Eval<T>>,
    t2: Seq<Eval<T>>,
)
    requires
        deterministic(eval),
        consistent(eval, init, t1),
        consistent(eval, init, t2),
        t1.len() <= t2.len(),
    ensures
        t1 == t2.take(t1.len() as int),
    decreases t1.len(),
{
    let n = t1.len() as int;
    if n == 0 {
        assert(t1 =~= t2.take(0));
    } else {
        lemma_deterministic_prefix(eval, init, t1.drop_last(), t2);
        lemma_consistent_index(eval, init, t2, n - 1);
        assert(t1.drop_last() == t2.take(n - 1));
        assert(run(init, t1.drop_last()) == run(init, t2.take(n - 1)));
        assert(call_ensures(
            eval,
            (run(init, t1.drop_last()).a, run(init, t1.drop_last()).b),
            t1.last(),
        ));
        assert(t1.last() == t2[n - 1]);
        assert forall|j: int| 0 <= j < n implies t1[j] == t2.take(n)[j] by {
            if j < n - 1 {
                assert(t1[j] == t1.drop_last()[j]);
                assert(t2.take(n - 1)[j] == t2[j]);
            } else {
                assert(t1[j] == t1.last());
            }
        }
        assert(t1 =~= t2.take(n));
    }
}

/// Law: the budget flips the outcome at a single threshold. If some run of
/// a deterministic evaluator stops at its last observation — so the number
/// of observations it made is the minimal sufficient budget — then any run
/// that never stops, which is what exhausting a budget means, made strictly
/// fewer observations: every budget at or above the threshold succeeds, and
/// every exhausted budget lies below it.
pub proof fn lemma_budget_flip<T, F: Fn(T, T) -> Eval<T>>(
    eval: F,
    init: Bracket<T>,
    success: Seq<Eval<T>>,
    failure: Seq<Eval<T>>,
)
    requires
        deterministic(eval),
        consistent(eval, init, success),
        success.len() >= 1,
        ev_stops(success.last()),
        no_stop_before(success, success.len() as int - 1),
        consistent(eval, init, failure),
        no_stop_before(failure, failure.len() as int),
    ensures
        failure.len() < success.len(),
{
    if failure.len() >= success.len() {
        lemma_deterministic_prefix(eval, init, success, failure);
        let n = success.len() as int;
        assert(failure.take(n)[n - 1] == failure[n - 1]);
        assert(success[n - 1] == success.last());
        assert(ev_stops(failure[n - 1]));
        assert(!ev_stops(failure[n - 1]));
    }
}

/// Law: for a fixed deterministic evaluator and start, the successful
/// outcome is unique. Any two runs that stop at their last observation made
/// the same observations, and so returned the same root.
pub proof fn lemma_deterministic_outcome<T, F: Fn(T, T) -> Eval<T>>(
    eval: F,
    init: Bracket<T>,
    t1: Seq<Eval<T>>,
    t2: Seq<Eval<T>>,
)
    requires
        deterministic(eval),
        consistent(eval, init, t1),
        t1.len() >= 1,
        ev_stops(t1.last()),
        no_stop_before(t1, t1.len() as int - 1),
        consistent(eval, init, t2),
        t2.len() >= 1,
        ev_stops(t2.last()),
        no_stop_before(t2, t2.len() as int - 1),
    ensures
        t1 == t2,
{
    if t1.len() <= t2.len() {
        lemma_deterministic_prefix(eval, init, t1, t2);
        let k = t1.len() as int;
        if t1.len() < t2.len() {
            assert(t2.take(k)[k - 1] == t2[k - 1]);
            assert(t1[k - 1] == t1.last());
            assert(ev_stops(t2[k - 1]));
            assert(!ev_stops(t2[k - 1]));
        } else {
            assert(t2.take(k) =~= t2);
        }
    } else {
        lemma_deterministic_prefix(eval, init, t2, t1);
        let k = t2.len() as int;
        assert(t1.take(k)[k - 1] == t1[k - 1]);
        assert(t2[k - 1] == t2.last());
        assert(ev_stops(t1[k - 1]));
        assert(!ev_stops(t1[k - 1]));
    }
}

} // verus!
