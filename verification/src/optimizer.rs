//! Gradient descent on a manifold, as a state machine.
//!
//! A run checks the initial point and then iterates: a numerical gradient at the current point,
//! a move along it by the exponential map, a look at the cost. The machine decides what comes
//! next; the caller does it and reports what came of it. A run ends when an iteration changes
//! the cost by less than the tolerance, when the budget of iterations is spent, or at the first
//! failure.
use vstd::prelude::*;
use crate::error::{ManifoldError, ManifoldErrorView};
use crate::scalar::{Scalar, PROBE_BITS};

verus! {

pub const OUT_OF_ORDER: &'static str = "event does not answer the action that was asked for";

/// The configuration of a gradient descent.
pub struct GradientDescent {
    /// The step size: each move is the gradient times the negated rate.
    pub learning_rate: Scalar,
    /// The largest number of iterations of a run.
    pub max_iterations: usize,
    /// An iteration that changes the cost by less than this ends the run.
    pub tolerance: Scalar,
}

/// Where a run stands. In the three phases of an iteration, `taken` is the number of iterations
/// that were completed before it.
#[derive(Clone, Copy, Debug, PartialEq, Eq, Structural)]
pub enum Phase {
    /// The initial point is being checked.
    Validating,
    /// The gradient at the current point is being taken.
    Differentiating { taken: usize },
    /// The current point is being moved along the gradient.
    Moving { taken: usize },
    /// The cost at the point reached is being evaluated.
    Evaluating { taken: usize },
    /// The run is over.
    Stopped,
}

/// What the caller reports.
#[derive(Debug)]
pub enum Event {
    /// The check of the initial point has passed or failed.
    Validated(Result<(), ManifoldError>),
    /// The gradient was taken, or taking it failed.
    Differentiated(Result<(), ManifoldError>),
    /// The point was moved, or the exponential map failed.
    Moved(Result<(), ManifoldError>),
    /// The cost before the move, less the cost after it, is the given value.
    Evaluated(Scalar),
}

/// What the caller is to do next.
#[derive(Debug)]
pub enum Action {
    /// Check the initial point, make it the current point and evaluate the cost there.
    Validate,
    /// Take the numerical gradient of the cost at the current point, with finite differences of
    /// step `probe`, projected onto the tangent space.
    Differentiate { probe: Scalar },
    /// Move from the current point by the exponential map along the gradient times `rate`, and
    /// make the point reached the current point.
    Move { rate: Scalar },
    /// Evaluate the cost at the current point and subtract it from the cost before the move.
    Evaluate,
    /// Return the current point.
    Finish,
    /// Return the error.
    Abort(ManifoldError),
}

/// An event, with its error seen through its view.
pub enum EventView {
    Validated(Result<(), ManifoldErrorView>),
    Differentiated(Result<(), ManifoldErrorView>),
    Moved(Result<(), ManifoldErrorView>),
    Evaluated(Scalar),
}

/// An action, with its error seen through its view.
pub enum ActionView {
    Validate,
    Differentiate { probe: Scalar },
    Move { rate: Scalar },
    Evaluate,
    Finish,
    Abort(ManifoldErrorView),
}

impl View for Event {
    type V = EventView;

    open spec fn view(&self) -> EventView {
        match self {
            Event::Validated(Ok(_)) => EventView::Validated(Ok(())),
            Event::Validated(Err(e)) => EventView::Validated(Err(e@)),
            Event::Differentiated(Ok(_)) => EventView::Differentiated(Ok(())),
            Event::Differentiated(Err(e)) => EventView::Differentiated(Err(e@)),
            Event::Moved(Ok(_)) => EventView::Moved(Ok(())),
            Event::Moved(Err(e)) => EventView::Moved(Err(e@)),
            Event::Evaluated(change) => EventView::Evaluated(*change),
        }
    }
}

impl View for Action {
    type V = ActionView;

    open spec fn view(&self) -> ActionView {
        match self {
            Action::Validate => ActionView::Validate,
            Action::Differentiate { probe } => ActionView::Differentiate { probe: *probe },
            Action::Move { rate } => ActionView::Move { rate: *rate },
            Action::Evaluate => ActionView::Evaluate,
            Action::Finish => ActionView::Finish,
            Action::Abort(e) => ActionView::Abort(e@),
        }
    }
}

impl GradientDescent {
    /// The first action of an iteration: a gradient by finite differences of step `1e-7`.
    pub open spec fn differentiate() -> ActionView {
        ActionView::Differentiate { probe: Scalar { bits: PROBE_BITS } }
    }

    /// Whether an iteration that changed the cost by `change` ends the run: the absolute change
    /// is less than the tolerance. A change that is a NaN does not end it.
    pub open spec fn settled(&self, change: Scalar) -> bool {
        change.within(self.tolerance)
    }

    /// What follows a failure that is out of order.
    pub open spec fn refused() -> (Phase, ActionView) {
        (Phase::Stopped, ActionView::Abort(ManifoldErrorView::InvalidParameter(OUT_OF_ORDER@)))
    }

    /// The transition of the machine: the phase after `event`, and the action to take.
    pub open spec fn next(&self, phase: Phase, event: EventView) -> (Phase, ActionView) {
        match phase {
            Phase::Validating => match event {
                EventView::Validated(Err(e)) => (Phase::Stopped, ActionView::Abort(e)),
                EventView::Validated(Ok(_)) => if self.max_iterations == 0 {
                    (Phase::Stopped, ActionView::Finish)
                } else {
                    (Phase::Differentiating { taken: 0 }, Self::differentiate())
                },
                _ => Self::refused(),
            },
            Phase::Differentiating { taken } => match event {
                EventView::Differentiated(Err(e)) => (Phase::Stopped, ActionView::Abort(e)),
                EventView::Differentiated(Ok(_)) => (
                    Phase::Moving { taken },
                    ActionView::Move { rate: self.learning_rate.negated() },
                ),
                _ => Self::refused(),
            },
            Phase::Moving { taken } => match event {
                EventView::Moved(Err(e)) => (Phase::Stopped, ActionView::Abort(e)),
                EventView::Moved(Ok(_)) => (Phase::Evaluating { taken }, ActionView::Evaluate),
                _ => Self::refused(),
            },
            Phase::Evaluating { taken } => match event {
                EventView::Evaluated(change) => if self.settled(change) || taken + 1
                    >= self.max_iterations {
                    (Phase::Stopped, ActionView::Finish)
                } else {
                    (Phase::Differentiating { taken: (taken + 1) as usize }, Self::differentiate())
                },
                _ => Self::refused(),
            },
            Phase::Stopped => Self::refused(),
        }
    }

    /// The phase reached, and the actions asked for from the start on, when `events` are
    /// reported in turn.
    pub open spec fn run(&self, events: Seq<EventView>) -> (Phase, Seq<ActionView>)
        decreases events.len(),
    {
        if events.len() == 0 {
            (Phase::Validating, seq![ActionView::Validate])
        } else {
            let before = self.run(events.drop_last());
            let then = self.next(before.0, events.last());
            (then.0, before.1.push(then.1))
        }
    }

    pub fn new(learning_rate: Scalar, max_iterations: usize, tolerance: Scalar) -> (g: Self)
        ensures
            g.learning_rate == learning_rate,
            g.max_iterations == max_iterations,
            g.tolerance == tolerance,
    {
        GradientDescent { learning_rate, max_iterations, tolerance }
    }

    /// Decides whether an iteration that changed the cost by `change` ends the run.
    pub fn converged(&self, change: Scalar) -> (b: bool)
        ensures
            b == self.settled(change),
    {
        change.falls_short(self.tolerance)
    }

    /// Begins a run: the initial point is to be checked.
    pub fn start(&self) -> (r: (Phase, Action))
        ensures
            r.0 == Phase::Validating,
            r.1@ == ActionView::Validate,
    {
        (Phase::Validating, Action::Validate)
    }

    /// Takes the report of what the last action came to and decides what comes next.
    ///
    /// A failure that the caller reports ends the run with that failure, unchanged. A run whose
    /// budget is spent ends like one that has converged: with the current point. An event that
    /// does not answer the action asked for ends the run with `InvalidParameter`.
    pub fn advance(&self, phase: Phase, event: Event) -> (r: (Phase, Action))
        ensures
            (r.0, r.1@) == self.next(phase, event@),
    {
        match phase {
            Phase::Validating => match event {
                Event::Validated(Err(e)) => (Phase::Stopped, Action::Abort(e)),
                Event::Validated(Ok(_)) => {
                    if self.max_iterations == 0 {
                        (Phase::Stopped, Action::Finish)
                    } else {
                        (Phase::Differentiating { taken: 0 }, Self::probe())
                    }
                },
                _ => Self::refuse(),
            },
            Phase::Differentiating { taken } => match event {
                Event::Differentiated(Err(e)) => (Phase::Stopped, Action::Abort(e)),
                Event::Differentiated(Ok(_)) => (
                    Phase::Moving { taken },
                    Action::Move { rate: self.learning_rate.neg() },
                ),
                _ => Self::refuse(),
            },
            Phase::Moving { taken } => match event {
                Event::Moved(Err(e)) => (Phase::Stopped, Action::Abort(e)),
                Event::Moved(Ok(_)) => (Phase::Evaluating { taken }, Action::Evaluate),
                _ => Self::refuse(),
            },
            Phase::Evaluating { taken } => match event {
                Event::Evaluated(change) => {
                    if self.converged(change) || self.max_iterations == 0 || taken
                        >= self.max_iterations - 1 {
                        (Phase::Stopped, Action::Finish)
                    } else {
                        (Phase::Differentiating { taken: taken + 1 }, Self::probe())
                    }
                },
                _ => Self::refuse(),
            },
            Phase::Stopped => Self::refuse(),
        }
    }

    fn probe() -> (a: Action)
        ensures
            a@ == Self::differentiate(),
    {
        Action::Differentiate { probe: Scalar::probe() }
    }

    fn refuse() -> (r: (Phase, Action))
        ensures
            (r.0, r.1@) == Self::refused(),
    {
        (Phase::Stopped, Action::Abort(ManifoldError::invalid_parameter(OUT_OF_ORDER)))
    }
}

/// The number of iterations begun among the actions: each begins with a gradient.
pub open spec fn iterations_begun(actions: Seq<ActionView>) -> nat
    decreases actions.len(),
{
    if actions.len() == 0 {
        0
    } else {
        iterations_begun(actions.drop_last()) + (if actions.last() is Differentiate {
            1nat
        } else {
            0nat
        })
    }
}

/// The iteration that a phase belongs to, counted from zero.
pub open spec fn iteration_of(phase: Phase) -> Option<usize> {
    match phase {
        Phase::Differentiating { taken } => Some(taken),
        Phase::Moving { taken } => Some(taken),
        Phase::Evaluating { taken } => Some(taken),
        _ => None,
    }
}

/// Whatever is reported, a run begins no more iterations than its budget holds; while it is in
/// an iteration, it has begun one more than were completed.
pub proof fn iterations_stay_within_budget(descent: GradientDescent, events: Seq<EventView>)
    ensures
        iterations_begun(descent.run(events).1) <= descent.max_iterations,
        iteration_of(descent.run(events).0) matches Some(taken) ==> iterations_begun(
            descent.run(events).1,
        ) == taken + 1,
        descent.run(events).0 is Validating ==> iterations_begun(descent.run(events).1) == 0,
        descent.run(events).1.len() == events.len() + 1,
    decreases events.len(),
{
    if events.len() == 0 {
        assert(seq![ActionView::Validate].drop_last() =~= Seq::<ActionView>::empty());
        assert(iterations_begun(seq![ActionView::Validate]) == 0) by {
            assert(iterations_begun(Seq::<ActionView>::empty()) == 0);
        }
    } else {
        iterations_stay_within_budget(descent, events.drop_last());
        let before = descent.run(events.drop_last());
        let then = descent.next(before.0, events.last());
        assert(before.1.push(then.1).drop_last() =~= before.1);
        assert(before.1.push(then.1).last() == then.1);
        assert(iterations_begun(before.1.push(then.1)) == iterations_begun(before.1) + (
        if then.1 is Differentiate {
            1nat
        } else {
            0nat
        }));
    }
}

/// The number of events that bring a run into a phase: one for the check and three for each
/// iteration completed, then one for each part of the iteration that is under way.
pub open spec fn events_before(phase: Phase) -> Option<int> {
    match phase {
        Phase::Validating => Some(0),
        Phase::Differentiating { taken } => Some(1 + 3 * taken),
        Phase::Moving { taken } => Some(2 + 3 * taken),
        Phase::Evaluating { taken } => Some(3 + 3 * taken),
        Phase::Stopped => None,
    }
}

/// Every run stops: while a run has not stopped, every event has moved it one phase on, so
/// that after more than three events for each iteration of the budget it has stopped, whatever
/// was reported.
pub proof fn runs_stop(descent: GradientDescent, events: Seq<EventView>)
    ensures
        events_before(descent.run(events).0) matches Some(count) ==> count == events.len(),
        events.len() > 3 * descent.max_iterations ==> descent.run(events).0 == Phase::Stopped,
    decreases events.len(),
{
    iterations_stay_within_budget(descent, events);
    if events.len() > 0 {
        runs_stop(descent, events.drop_last());
    }
}

/// The first failure ends the run and is returned as it was reported: whatever came before, a
/// gradient or a move or a check that fails with `e` where it was asked for is answered by
/// `Abort(e)`, and the run has stopped.
pub proof fn failures_pass_through(descent: GradientDescent, phase: Phase, e: ManifoldErrorView)
    ensures
        descent.next(Phase::Validating, EventView::Validated(Err(e))) == (
            Phase::Stopped,
            ActionView::Abort(e),
        ),
        phase is Differentiating ==> descent.next(phase, EventView::Differentiated(Err(e))) == (
            Phase::Stopped,
            ActionView::Abort(e),
        ),
        phase is Moving ==> descent.next(phase, EventView::Moved(Err(e))) == (
            Phase::Stopped,
            ActionView::Abort(e),
        ),
{
}

/// The reports of `count` iterations that neither fail nor settle, after a check that passed.
pub open spec fn uneventful(descent: GradientDescent, events: Seq<EventView>, count: int) -> bool {
    &&& events.len() == 1 + 3 * count
    &&& events[0] == EventView::Validated(Ok(()))
    &&& forall|i: int|
        0 <= i < count ==> {
            &&& #[trigger] events[1 + 3 * i] == EventView::Differentiated(Ok(()))
            &&& events[2 + 3 * i] == EventView::Moved(Ok(()))
            &&& events[3 + 3 * i] matches EventView::Evaluated(change)
            &&& !descent.settled(change)
        }
}

/// A run whose budget is spent ends like one that has converged. After a check that passed and
/// as many iterations as the budget holds, none of which failed or settled, the run has
/// stopped, its last action is to return the current point, and it has begun exactly
/// `max_iterations` iterations.
pub proof fn spent_budget_is_success(descent: GradientDescent, events: Seq<EventView>)
    requires
        descent.max_iterations >= 1,
        uneventful(descent, events, descent.max_iterations as int),
    ensures
        descent.run(events).0 == Phase::Stopped,
        descent.run(events).1.last() == ActionView::Finish,
        iterations_begun(descent.run(events).1) == descent.max_iterations,
{
    let last = descent.max_iterations - 1;
    evaluating_while_budget_lasts(descent, events, last);
    let prefix = events.take(3 + 3 * last);
    assert(events.drop_last() =~= prefix);
    assert(events[1 + 3 * last] == EventView::Differentiated(Ok(())));
    assert(events.last() == events[3 + 3 * last]);
    let before = descent.run(prefix);
    let then = descent.next(before.0, events.last());
    assert(before.1.push(then.1).drop_last() =~= before.1);
}

/// While the budget lasts, a run that is told of a passed check and of iterations that neither
/// fail nor settle goes from iteration to iteration: when the cost of iteration `i` is about to
/// be reported, it is evaluating in iteration `i` and has begun `i + 1` iterations.
proof fn evaluating_while_budget_lasts(descent: GradientDescent, events: Seq<EventView>, i: int)
    requires
        0 <= i < descent.max_iterations,
        events.len() >= 4 + 3 * i,
        events[0] == EventView::Validated(Ok(())),
        forall|j: int|
            0 <= j <= i ==> {
                &&& #[trigger] events[1 + 3 * j] == EventView::Differentiated(Ok(()))
                &&& events[2 + 3 * j] == EventView::Moved(Ok(()))
                &&& events[3 + 3 * j] matches EventView::Evaluated(change)
                &&& !descent.settled(change)
            },
    ensures
        descent.run(events.take(3 + 3 * i)).0 == (Phase::Evaluating { taken: i as usize }),
        iterations_begun(descent.run(events.take(3 + 3 * i)).1) == i + 1,
    decreases i,
{
    let start = 3 * i;
    let e0 = events.take(start);
    let e1 = events.take(start + 1);
    let e2 = events.take(start + 2);
    let e3 = events.take(start + 3);
    assert(e1.drop_last() =~= e0 && e1.last() == events[start]);
    assert(e2.drop_last() =~= e1 && e2.last() == events[1 + 3 * i]);
    assert(e3.drop_last() =~= e2 && e3.last() == events[2 + 3 * i]);
    let r0 = descent.run(e0);
    let r1 = descent.run(e1);
    let r2 = descent.run(e2);
    let r3 = descent.run(e3);
    assert(events[1 + 3 * i] == EventView::Differentiated(Ok(())));
    counting_one_more(r0.1, descent.next(r0.0, e1.last()).1);
    counting_one_more(r1.1, descent.next(r1.0, e2.last()).1);
    counting_one_more(r2.1, descent.next(r2.0, e3.last()).1);
    if i == 0 {
        assert(e0 =~= Seq::<EventView>::empty());
        assert(seq![ActionView::Validate].drop_last() =~= Seq::<ActionView>::empty());
        assert(iterations_begun(Seq::<ActionView>::empty()) == 0);
        assert(iterations_begun(seq![ActionView::Validate]) == 0);
        assert(r1.0 == Phase::Differentiating { taken: 0 });
    } else {
        evaluating_while_budget_lasts(descent, events, i - 1);
        assert(events[1 + 3 * (i - 1)] == EventView::Differentiated(Ok(())));
        assert(events[start] == events[3 + 3 * (i - 1)]);
        assert(r0.0 == Phase::Evaluating { taken: (i - 1) as usize });
        assert(r1.0 == Phase::Differentiating { taken: i as usize });
    }
}

/// Counting the iterations begun, action by action.
proof fn counting_one_more(actions: Seq<ActionView>, action: ActionView)
    ensures
        iterations_begun(actions.push(action)) == iterations_begun(actions) + (
        if action is Differentiate {
            1nat
        } else {
            0nat
        }),
{
    assert(actions.push(action).drop_last() =~= actions);
    assert(actions.push(action).last() == action);
}

} // verus!
