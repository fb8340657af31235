//! The solver, its builder, and the sample window that an iteration works on.
use crate::error::Error;
use crate::scalar::{
    at_least, at_least_is, below, below_is, difference, difference_is, magnitude, one, product,
    product_is, quotient, quotient_is, ratio, ratio_is, same, same_is, sum, sum_is, zero,
};
use num_traits::Float;
use vstd::prelude::*;

verus! {

/// The iteration cap of a solver that was given none.
pub const DEFAULT_MAX_ITER: usize = 50;

/// What a builder holds: each parameter either given or left unset.
pub struct Settings<T> {
    pub tol: Option<T>,
    pub step: Option<T>,
    pub max_iter: Option<usize>,
}

/// What a solver holds: the tolerance and the step as given, or unset and
/// then standing for the default of the scalar type, and the iteration cap.
pub struct Config<T> {
    pub tol: Option<T>,
    pub step: Option<T>,
    pub max_iter: usize,
}

impl<T> Settings<T> {
    /// Nothing given.
    pub open spec fn unset() -> Self {
        Settings { tol: None, step: None, max_iter: None }
    }

    /// These settings with the tolerance replaced.
    pub open spec fn with_tol(self, tol: T) -> Self {
        Settings { tol: Some(tol), ..self }
    }

    /// These settings with the step replaced.
    pub open spec fn with_step(self, step: T) -> Self {
        Settings { step: Some(step), ..self }
    }

    /// These settings with the iteration cap replaced.
    pub open spec fn with_max_iter(self, max_iter: usize) -> Self {
        Settings { max_iter: Some(max_iter), ..self }
    }

    /// The configuration that these settings stand for.
    pub open spec fn resolved(self) -> Config<T> {
        Config {
            tol: self.tol,
            step: self.step,
            max_iter: match self.max_iter {
                Some(n) => n,
                None => DEFAULT_MAX_ITER,
            },
        }
    }
}

impl<T> Config<T> {
    /// Whether `tol` can be the tolerance in force: the one given, or, with
    /// none given, the default 1.48e-8 as the scalar type makes it of the
    /// fraction 148 / 10^10.
    pub open spec fn has_tol(self, tol: T) -> bool {
        match self.tol {
            Some(given) => tol == given,
            None => ratio_is(148, 10_000_000_000, tol),
        }
    }

    /// Whether `step` can be the step in force: the one given, or, with none
    /// given, the default 1.0e-4 as the scalar type makes it of the fraction
    /// 1 / 10^4.
    pub open spec fn has_step(self, step: T) -> bool {
        match self.step {
            Some(given) => step == given,
            None => ratio_is(1, 10_000, step),
        }
    }

    /// Whether `x1` can be the second sample point for the first guess `x0`.
    pub open spec fn has_second_point(self, x0: T, x1: T) -> bool {
        exists|step: T| self.has_step(step) && #[trigger] is_second_point(step, x0, x1)
    }
}

/// Whether `x1` can come out of `(1 + step) * x0 + step`, where `x0 >= 0`
/// is answered with yes, or of `(1 + step) * x0 - step`, where it is answered
/// with no. The scalar type's one and zero are whatever it gives for them.
pub open spec fn is_second_point<T>(step: T, x0: T, x1: T) -> bool {
    exists|unit: T, nil: T, factor: T, scaled: T, up: bool|
        #![trigger sum_is(unit, step, factor), product_is(factor, x0, scaled), at_least_is(x0, nil, up)]
        sum_is(unit, step, factor) && product_is(factor, x0, scaled) && at_least_is(x0, nil, up)
            && if up {
            sum_is(scaled, step, x1)
        } else {
            difference_is(scaled, step, x1)
        }
}

/// A root approximation, with the index of the round that produced it.
#[derive(Debug)]
pub struct Output<T> {
    pub x: T,
    pub iter: usize,
}

/// Collects the parameters of a solver; what is not given takes its default.
pub struct Builder<T> {
    tol: Option<T>,
    step: Option<T>,
    max_iter: Option<usize>,
}

impl<T> View for Builder<T> {
    type V = Settings<T>;

    closed spec fn view(&self) -> Settings<T> {
        Settings { tol: self.tol, step: self.step, max_iter: self.max_iter }
    }
}

impl<T> Default for Builder<T> {
    /// A builder with nothing given.
    fn default() -> (b: Self)
        ensures
            b@ == Settings::<T>::unset(),
    {
        Builder { tol: None, step: None, max_iter: None }
    }
}

impl<T: Float> Builder<T> {
    /// Sets the tolerance: an update smaller than this ends the iteration.
    /// Any value is taken as it is.
    pub fn tol(self, tol: T) -> (b: Self)
        ensures
            b@ == self@.with_tol(tol),
    {
        Builder { tol: Some(tol), step: self.step, max_iter: self.max_iter }
    }

    /// Sets the step by which the first guess is moved to get the second
    /// sample point. Any value is taken as it is.
    pub fn step(self, step: T) -> (b: Self)
        ensures
            b@ == self@.with_step(step),
    {
        Builder { tol: self.tol, step: Some(step), max_iter: self.max_iter }
    }

    /// Sets the iteration cap. Any value is taken as it is.
    pub fn max_iter(self, max_iter: usize) -> (b: Self)
        ensures
            b@ == self@.with_max_iter(max_iter),
    {
        Builder { tol: self.tol, step: self.step, max_iter: Some(max_iter) }
    }

    /// The solver with the parameters given so far. An iteration cap that was
    /// not given is 50; a tolerance or a step that was not given stays unset
    /// in the solver and stands for the default.
    pub fn build(self) -> (s: Solver<T>)
        ensures
            s@ == self@.resolved(),
    {
        Solver {
            tol: self.tol,
            step: self.step,
            max_iter: match self.max_iter {
                Some(n) => n,
                None => DEFAULT_MAX_ITER,
            },
        }
    }
}

/// Two sample points of a function with its values there: `(x0, y0)` the
/// older, `(x1, y1)` the newer.
#[derive(Debug)]
pub struct Samples<T> {
    pub x0: T,
    pub y0: T,
    pub x1: T,
    pub y1: T,
}

impl<T> Samples<T> {
    /// Whether `flat` can be the answer to `y1 == y0`.
    pub open spec fn flat_is(self, flat: bool) -> bool {
        same_is(self.y1, self.y0, flat)
    }

    /// Whether `x` can come out of `0.5 * (x1 + x0)`, with the half as the
    /// scalar type makes it of the fraction 1 / 2.
    pub open spec fn has_midpoint(self, x: T) -> bool {
        exists|half: T, total: T|
            ratio_is(1, 2, half) && sum_is(self.x1, self.x0, total) && #[trigger] product_is(
                half,
                total,
                x,
            )
    }

    /// Whether `dx` can come out of `y1 * (x1 - x0) / (y1 - y0)`.
    pub open spec fn has_update(self, dx: T) -> bool {
        exists|run: T, rise: T, scaled: T|
            #![trigger product_is(self.y1, run, scaled), quotient_is(scaled, rise, dx)]
            difference_is(self.x1, self.x0, run) && product_is(self.y1, run, scaled)
                && difference_is(self.y1, self.y0, rise) && quotient_is(scaled, rise, dx)
    }

    /// Whether a round on this window can hold `x` as its candidate `x1 - dx`
    /// and answer the test `|dx| < tol` with `small`. The magnitude is
    /// whatever the scalar type gives for it.
    pub open spec fn has_candidate(self, tol: T, x: T, small: bool) -> bool {
        exists|dx: T, size: T|
            #![trigger difference_is(self.x1, dx, x), below_is(size, tol, small)]
            self.has_update(dx) && difference_is(self.x1, dx, x) && below_is(size, tol, small)
    }

    /// Whether a round on this window can end the search with `x`: the
    /// values are found equal and `x` is the midpoint, or they are found
    /// unequal, the update is found small, and `x` is the candidate.
    pub open spec fn ends_with(self, tol: T, x: T) -> bool {
        ||| self.flat_is(true) && self.has_midpoint(x)
        ||| self.flat_is(false) && self.has_candidate(tol, x, true)
    }

    /// Whether a round on this window can move on to the window `next`: the
    /// values are found unequal, the update is not found small, the newer
    /// sample becomes the older, and the candidate, with a value that `f`
    /// gives there, the newer.
    pub open spec fn moves_to<F: FnMut(T) -> T>(self, tol: T, f: F, next: Self) -> bool {
        &&& self.flat_is(false)
        &&& self.has_candidate(tol, next.x1, false)
        &&& call_ensures(f, (next.x1,), next.y1)
        &&& next.x0 == self.x1
        &&& next.y0 == self.y1
    }
}

impl<T: Float> Samples<T> {
    /// Whether the two values are equal, so that the secant has no slope.
    pub fn is_flat(&self) -> (flat: bool)
        ensures
            self.flat_is(flat),
    {
        same(self.y1, self.y0)
    }

    /// The point halfway between the two sample points, `0.5 * (x1 + x0)`.
    pub fn midpoint(&self) -> (x: T)
        ensures
            self.has_midpoint(x),
    {
        let half: T = ratio(1, 2);
        let total: T = sum(self.x1, self.x0);
        product(half, total)
    }

    /// The secant update `y1 * (x1 - x0) / (y1 - y0)`: the distance from `x1`
    /// back to the point where the line through the two samples is zero.
    pub fn update(&self) -> (dx: T)
        ensures
            self.has_update(dx),
    {
        let run: T = difference(self.x1, self.x0);
        let scaled: T = product(self.y1, run);
        let rise: T = difference(self.y1, self.y0);
        quotient(scaled, rise)
    }

    /// The window moved on: the newer sample becomes the older, and `(x, y)`
    /// the newer.
    pub fn shift(self, x: T, y: T) -> (next: Self)
        ensures
            next == (Samples { x0: self.x1, y0: self.y1, x1: x, y1: y }),
    {
        Samples { x0: self.x1, y0: self.y1, x1: x, y1: y }
    }
}

/// Whether `trace` can be the windows of a search from `x0`, one after the
/// other: the first holds `x0`, its second point and values that `f` gives
/// at the two, and each round moves from one window to the next.
pub open spec fn is_run<T, F: FnMut(T) -> T>(
    cfg: Config<T>,
    x0: T,
    f: F,
    tol: T,
    trace: Seq<Samples<T>>,
) -> bool {
    &&& trace.len() >= 1
    &&& trace[0].x0 == x0
    &&& cfg.has_second_point(x0, trace[0].x1)
    &&& call_ensures(f, (x0,), trace[0].y0)
    &&& call_ensures(f, (trace[0].x1,), trace[0].y1)
    &&& forall|i: int|
        0 <= i < trace.len() - 1 ==> (#[trigger] trace[i]).moves_to(tol, f, trace[i + 1])
}

/// Whether `r` can be the result of a search from `x0` that works with the
/// tolerance `tol` and goes through the windows of `trace`. A root comes from
/// the round on the last window, whose index it carries, within the
/// iteration cap. A failure carries the iteration cap, and then every round
/// up to the cap has moved on.
pub open spec fn is_outcome<T, F: FnMut(T) -> T>(
    cfg: Config<T>,
    x0: T,
    f: F,
    tol: T,
    trace: Seq<Samples<T>>,
    r: Result<Output<T>, Error>,
) -> bool {
    &&& cfg.has_tol(tol)
    &&& is_run(cfg, x0, f, tol, trace)
    &&& match r {
        Ok(out) => {
            &&& out.iter < cfg.max_iter
            &&& trace.len() == out.iter + 1
            &&& trace.last().ends_with(tol, out.x)
        },
        Err(e) => {
            &&& e == Error::MaxIter(cfg.max_iter)
            &&& trace.len() == cfg.max_iter + 1
        },
    }
}

/// A secant solver: a tolerance, a step and an iteration cap, fixed once it
/// is made.
#[derive(Debug)]
pub struct Solver<T> {
    tol: Option<T>,
    step: Option<T>,
    max_iter: usize,
}

impl<T> View for Solver<T> {
    type V = Config<T>;

    closed spec fn view(&self) -> Config<T> {
        Config { tol: self.tol, step: self.step, max_iter: self.max_iter }
    }
}

impl<T> Default for Solver<T> {
    /// The solver that a builder with nothing given builds.
    fn default() -> (s: Self)
        ensures
            s@ == Settings::<T>::unset().resolved(),
    {
        Solver { tol: None, step: None, max_iter: DEFAULT_MAX_ITER }
    }
}

impl<T: Float> Solver<T> {
    /// The tolerance: the one given, else 1.48e-8 as the fraction
    /// 148 / 10^10 in `T`.
    pub fn tolerance(&self) -> (tol: T)
        ensures
            self@.has_tol(tol),
    {
        match self.tol {
            Some(given) => given,
            None => ratio(148, 10_000_000_000),
        }
    }

    /// The step: the one given, else 1.0e-4 as the fraction 1 / 10^4 in `T`.
    pub fn step(&self) -> (step: T)
        ensures
            self@.has_step(step),
    {
        match self.step {
            Some(given) => given,
            None => ratio(1, 10_000),
        }
    }

    /// The iteration cap.
    pub fn max_iterations(&self) -> (max_iter: usize)
        ensures
            max_iter == self@.max_iter,
    {
        self.max_iter
    }

    /// The second sample point for a first guess `x0`: `(1 + step) * x0 + step`
    /// where `x0 >= 0`, else `(1 + step) * x0 - step`, so that the guess is
    /// moved away from zero.
    pub fn second_point(&self, x0: T) -> (x1: T)
        ensures
            self@.has_second_point(x0, x1),
    {
        let step: T = self.step();
        let factor: T = sum(one(), step);
        let scaled: T = product(factor, x0);
        let up = at_least(x0, zero());
        let x1: T = if up {
            sum(scaled, step)
        } else {
            difference(scaled, step)
        };
        proof {
            assert(is_second_point(step, x0, x1));
        }
        x1
    }

    /// Looks for a root of `f` near `x0`.
    ///
    /// The first window is `x0` and its second point. Each round, of at most
    /// as many as the iteration cap, ends the search with the midpoint of the
    /// window where the two values are equal, and with `x1 - dx` where the
    /// secant update `dx` is smaller in magnitude than the tolerance; else it
    /// moves the window on to `x1 - dx`. The round that ends the search gives
    /// its index, counted from 0. When the rounds are used up, the search
    /// fails with the iteration cap.
    ///
    /// The contract gives the result as the outcome of such a search, for
    /// some tolerance that the solver can have and some sequence of windows.
    /// What each operation on scalars gives, and what `f` gives, is left to
    /// them.
    pub fn solve<F: FnMut(T) -> T>(&self, x0: T, f: F) -> (r: Result<Output<T>, Error>)
        requires
            forall|x: T| call_requires(f, (x,)),
        ensures
            exists|tol: T, trace: Seq<Samples<T>>| #[trigger] is_outcome(self@, x0, f, tol, trace, r),
            match r {
                Ok(out) => out.iter < self@.max_iter,
                Err(e) => e == Error::MaxIter(self@.max_iter),
            },
            self@.max_iter == 0 ==> r is Err,
    {
        let mut eval = f;
        let tol: T = self.tolerance();
        let x1: T = self.second_point(x0);
        let y0: T = eval(x0);
        let y1: T = eval(x1);
        let mut window = Samples { x0, y0, x1, y1 };
        let ghost mut trace: Seq<Samples<T>> = seq![window];
        let mut iter: usize = 0;
        while iter < self.max_iter
            invariant
                iter <= self.max_iter,
                self.max_iter == self@.max_iter,
                eval == f,
                forall|x: T| call_requires(f, (x,)),
                self@.has_tol(tol),
                trace.len() == iter + 1,
                trace.last() == window,
                is_run(self@, x0, f, tol, trace),
            decreases self.max_iter - iter,
        {
            if window.is_flat() {
                let x: T = window.midpoint();
                let r: Result<Output<T>, Error> = Ok(Output { x, iter });
                proof {
                    assert(is_outcome(self@, x0, f, tol, trace, r));
                }
                return r;
            }
            let dx: T = window.update();
            let x: T = difference(window.x1, dx);
            let small = below(magnitude(dx), tol);
            proof {
                assert(window.has_candidate(tol, x, small));
            }
            if small {
                let r: Result<Output<T>, Error> = Ok(Output { x, iter });
                proof {
                    assert(is_outcome(self@, x0, f, tol, trace, r));
                }
                return r;
            }
            let y: T = eval(x);
            let ghost before = trace;
            let ghost judged = window;
            window = window.shift(x, y);
            proof {
                assert(judged.moves_to(tol, f, window));
                trace = before.push(window);
                assert forall|i: int| 0 <= i < trace.len() - 1 implies (#[trigger] trace[i]).moves_to(
                    tol,
                    f,
                    trace[i + 1],
                ) by {
                    if i < before.len() - 1 {
                        assert(before[i].moves_to(tol, f, before[i + 1]));
                    }
                }
            }
            iter = iter + 1;
        }
        let r: Result<Output<T>, Error> = Err(Error::MaxIter(self.max_iter));
        proof {
            assert(is_outcome(self@, x0, f, tol, trace, r));
        }
        r
    }
}

/// A search on a function that gives one value `c` everywhere ends in round
/// 0 with the midpoint of the first window, where the iteration cap allows a
/// round and the scalar type finds `c` equal to itself.
pub proof fn lemma_constant_function_ends_at_once<T, F: FnMut(T) -> T>(
    cfg: Config<T>,
    x0: T,
    f: F,
    tol: T,
    trace: Seq<Samples<T>>,
    r: Result<Output<T>, Error>,
    c: T,
)
    requires
        is_outcome(cfg, x0, f, tol, trace, r),
        cfg.max_iter > 0,
        forall|x: T, y: T| call_ensures(f, (x,), y) ==> y == c,
        forall|flat: bool| same_is(c, c, flat) ==> flat,
    ensures
        r is Ok,
        r->Ok_0.iter == 0,
        trace.len() == 1,
        trace[0].x0 == x0,
        cfg.has_second_point(x0, trace[0].x1),
        trace[0].has_midpoint(r->Ok_0.x),
{
    assert(trace[0].y0 == c);
    assert(trace[0].y1 == c);
    if trace.len() > 1 {
        assert(trace[0].moves_to(tol, f, trace[1]));
        assert(same_is(c, c, false));
    }
    assert(!trace[0].flat_is(false));
}

/// A search in which no round can end, because no window is found flat and
/// no update is found small, fails with the iteration cap after as many
/// rounds.
pub proof fn lemma_no_end_gives_the_cap<T, F: FnMut(T) -> T>(
    cfg: Config<T>,
    x0: T,
    f: F,
    tol: T,
    trace: Seq<Samples<T>>,
    r: Result<Output<T>, Error>,
)
    requires
        is_outcome(cfg, x0, f, tol, trace, r),
        forall|w: Samples<T>, x: T| !#[trigger] w.ends_with(tol, x),
    ensures
        r == Err::<Output<T>, Error>(Error::MaxIter(cfg.max_iter)),
        trace.len() == cfg.max_iter + 1,
{
    if let Ok(out) = r {
        assert(trace.last().ends_with(tol, out.x));
    }
}

/// Overrides of different parameters do not depend on the order in which
/// they are made: from the same settings, the six orders of one tolerance,
/// one step and one iteration cap give the same settings, and so the same
/// solver configuration.
pub proof fn lemma_override_order<T>(base: Settings<T>, tol: T, step: T, max_iter: usize)
    ensures
        base.with_tol(tol).with_step(step).with_max_iter(max_iter)
            == base.with_tol(tol).with_max_iter(max_iter).with_step(step),
        base.with_tol(tol).with_step(step).with_max_iter(max_iter)
            == base.with_step(step).with_tol(tol).with_max_iter(max_iter),
        base.with_tol(tol).with_step(step).with_max_iter(max_iter)
            == base.with_step(step).with_max_iter(max_iter).with_tol(tol),
        base.with_tol(tol).with_step(step).with_max_iter(max_iter)
            == base.with_max_iter(max_iter).with_tol(tol).with_step(step),
        base.with_tol(tol).with_step(step).with_max_iter(max_iter)
            == base.with_max_iter(max_iter).with_step(step).with_tol(tol),
        base.with_tol(tol).with_step(step).with_max_iter(max_iter).resolved()
            == (Config { tol: Some(tol), step: Some(step), max_iter }),
{
}

/// An override replaces what was given before for the same parameter and
/// leaves the other two as they were.
pub proof fn lemma_last_override_wins<T>(base: Settings<T>, a: T, b: T, m: usize, n: usize)
    ensures
        base.with_tol(a).with_tol(b) == base.with_tol(b),
        base.with_step(a).with_step(b) == base.with_step(b),
        base.with_max_iter(m).with_max_iter(n) == base.with_max_iter(n),
        base.with_tol(a).step == base.step,
        base.with_tol(a).max_iter == base.max_iter,
        base.with_step(a).tol == base.tol,
        base.with_step(a).max_iter == base.max_iter,
        base.with_max_iter(m).tol == base.tol,
        base.with_max_iter(m).step == base.step,
{
}

/// A builder is what its settings are, and a solver what its configuration
/// is: two with equal views are equal, so that equal settings build equal
/// solvers.
pub proof fn lemma_views_are_faithful<T>(a: Builder<T>, b: Builder<T>, s: Solver<T>, t: Solver<T>)
    ensures
        a@ == b@ ==> a == b,
        s@ == t@ ==> s == t,
{
}

} // verus!
