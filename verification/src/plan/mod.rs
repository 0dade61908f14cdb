//! Plans and the passes that carry them out.
//!
//! An [`InstallPlan`] is an ordered list of actions, each with its state.
//! A [`Pass`] walks the list: forward to install, and in reverse to undo
//! what a failed install did or to uninstall. The pass never reorders or
//! skips ahead; it takes one action at a time and asks its driver for one
//! request at a time.

pub mod laws;

use vstd::prelude::*;
use crate::action::{
    Action, ActionError, ActionErrorView, ActionState, StatefulAction, Step, StepView,
};
use crate::settings::Setting;
use crate::system::{Request, RequestView, Response, ResponseView};

verus! {

/// The failure of one action of a plan.
#[derive(Debug)]
pub struct Failure {
    /// The position of the action in the plan, counted from zero.
    pub index: usize,
    /// Why it failed.
    pub error: ActionError,
}

/// The view of a [`Failure`].
pub struct FailureView {
    pub index: nat,
    pub error: ActionErrorView,
}

impl View for Failure {
    type V = FailureView;

    open spec fn view(&self) -> FailureView {
        FailureView { index: self.index as nat, error: self.error@ }
    }
}

impl DeepView for Failure {
    type V = FailureView;

    open spec fn deep_view(&self) -> FailureView {
        self@
    }
}

impl Clone for Failure {
    fn clone(&self) -> (copy: Self)
        ensures
            copy@ == self@,
    {
        Failure { index: self.index, error: self.error.clone() }
    }
}

/// How a pass over a plan ended.
#[derive(Debug)]
pub enum Outcome {
    /// Every action was carried out.
    Success,
    /// An action failed on the way forward, and every action before it was
    /// reverted.
    Unwound { failure: Failure },
    /// An action failed on the way forward, and some of the actions before
    /// it could not be reverted: the machine needs a person.
    UnwindFailed { failure: Failure, errors: Vec<Failure> },
    /// An uninstall could not revert some of the actions.
    RevertFailed { errors: Vec<Failure> },
}

/// The view of an [`Outcome`].
pub enum OutcomeView {
    Success,
    Unwound { failure: FailureView },
    UnwindFailed { failure: FailureView, errors: Seq<FailureView> },
    RevertFailed { errors: Seq<FailureView> },
}

impl View for Outcome {
    type V = OutcomeView;

    open spec fn view(&self) -> OutcomeView {
        match self {
            Outcome::Success => OutcomeView::Success,
            Outcome::Unwound { failure } => OutcomeView::Unwound { failure: failure@ },
            Outcome::UnwindFailed { failure, errors } => OutcomeView::UnwindFailed {
                failure: failure@,
                errors: errors.deep_view(),
            },
            Outcome::RevertFailed { errors } => OutcomeView::RevertFailed {
                errors: errors.deep_view(),
            },
        }
    }
}

/// What the driver is to do next.
#[derive(Debug)]
pub enum Next {
    /// Perform the request and report the response.
    Perform(Request),
    /// Nothing: the pass is over.
    Finished(Outcome),
}

/// The view of a [`Next`].
pub enum NextView {
    Perform(RequestView),
    Finished(OutcomeView),
}

impl View for Next {
    type V = NextView;

    open spec fn view(&self) -> NextView {
        match self {
            Next::Perform(request) => NextView::Perform(request@),
            Next::Finished(outcome) => NextView::Finished(outcome@),
        }
    }
}

/// What a pass tells its driver after each step.
#[derive(Debug)]
pub struct Directive {
    /// Whether the state of an action changed: the plan is to be written to
    /// durable storage before anything else is done.
    pub persist: bool,
    /// What to do after that.
    pub next: Next,
}

/// Where a pass over a plan stands.
#[derive(Debug)]
pub struct Pass {
    forward: bool,
    position: usize,
    responses: Vec<Response>,
    failure: Option<Failure>,
    errors: Vec<Failure>,
}

/// The view of a [`Pass`].
pub struct PassView {
    /// Whether the pass goes forward, executing, or in reverse, reverting.
    pub forward: bool,
    /// Forward: the index of the action that is executed. In reverse: one
    /// more than the index of the action that is reverted.
    pub position: nat,
    /// The responses reported for the action the pass is at.
    pub responses: Seq<ResponseView>,
    /// The failure that turned the pass around, if one did.
    pub failure: Option<FailureView>,
    /// The reverts that failed, in the order in which they did.
    pub errors: Seq<FailureView>,
}

impl PassView {
    /// The start of an install: forward from the first action.
    pub open spec fn install() -> PassView {
        PassView {
            forward: true,
            position: 0,
            responses: Seq::empty(),
            failure: None,
            errors: Seq::empty(),
        }
    }

    /// The start of an uninstall of a plan of `len` actions: in reverse
    /// from the last action.
    pub open spec fn uninstall(len: nat) -> PassView {
        PassView {
            forward: false,
            position: len,
            responses: Seq::empty(),
            failure: None,
            errors: Seq::empty(),
        }
    }

    /// The pass after the driver reported `response`, if it reported one.
    pub open spec fn report(self, response: Option<ResponseView>) -> PassView {
        match response {
            Some(response) => PassView { responses: self.responses.push(response), ..self },
            None => self,
        }
    }

    /// The pass at the next action forward.
    pub open spec fn ahead(self) -> PassView {
        PassView { position: self.position + 1, responses: Seq::empty(), ..self }
    }

    /// The pass at the next action in reverse.
    pub open spec fn back(self) -> PassView {
        PassView { position: (self.position - 1) as nat, responses: Seq::empty(), ..self }
    }

    /// The pass turned around by the failure of the action at `index`: the
    /// actions up to that one are taken in reverse.
    pub open spec fn unwind(self, index: nat, error: ActionErrorView) -> PassView {
        PassView {
            forward: false,
            position: index + 1,
            responses: Seq::empty(),
            failure: Some(FailureView { index, error }),
            errors: self.errors,
        }
    }

    /// The pass with one more failed revert on record.
    pub open spec fn noting(self, index: nat, error: ActionErrorView) -> PassView {
        PassView { errors: self.errors.push(FailureView { index, error }), ..self }
    }

    /// How the pass ends, by what it has on record.
    pub open spec fn outcome(self) -> OutcomeView {
        match self.failure {
            Some(failure) => if self.errors.len() == 0 {
                OutcomeView::Unwound { failure }
            } else {
                OutcomeView::UnwindFailed { failure, errors: self.errors }
            },
            None => if self.errors.len() == 0 {
                OutcomeView::Success
            } else {
                OutcomeView::RevertFailed { errors: self.errors }
            },
        }
    }
}

impl View for Pass {
    type V = PassView;

    closed spec fn view(&self) -> PassView {
        PassView {
            forward: self.forward,
            position: self.position as nat,
            responses: self.responses.deep_view(),
            failure: self.failure.deep_view(),
            errors: self.errors.deep_view(),
        }
    }
}

impl Pass {
    /// A pass that installs: forward from the first action.
    pub fn install() -> (pass: Pass)
        ensures
            pass@ == PassView::install(),
    {
        let pass = Pass {
            forward: true,
            position: 0,
            responses: Vec::new(),
            failure: None,
            errors: Vec::new(),
        };
        assert(pass.responses.deep_view() =~= Seq::<ResponseView>::empty());
        assert(pass.errors.deep_view() =~= Seq::<FailureView>::empty());
        pass
    }

    /// A pass that uninstalls a plan of `len` actions: in reverse from the
    /// last action.
    pub fn uninstall(len: usize) -> (pass: Pass)
        ensures
            pass@ == PassView::uninstall(len as nat),
    {
        let pass = Pass {
            forward: false,
            position: len,
            responses: Vec::new(),
            failure: None,
            errors: Vec::new(),
        };
        assert(pass.responses.deep_view() =~= Seq::<ResponseView>::empty());
        assert(pass.errors.deep_view() =~= Seq::<FailureView>::empty());
        pass
    }

    /// Whether the pass goes forward.
    pub fn forward(&self) -> (forward: bool)
        ensures
            forward == self@.forward,
    {
        self.forward
    }

    /// Where the pass stands: going forward, the index of the action that
    /// is executed; in reverse, one more than the index of the action that
    /// is reverted.
    pub fn position(&self) -> (position: usize)
        ensures
            position == self@.position,
    {
        self.position
    }

    /// How the pass ends, by what it has on record.
    fn outcome(&self) -> (outcome: Outcome)
        ensures
            outcome@ == self@.outcome(),
    {
        let errors = clone_failures(&self.errors);
        match &self.failure {
            Some(failure) => {
                if errors.len() == 0 {
                    Outcome::Unwound { failure: failure.clone() }
                } else {
                    Outcome::UnwindFailed { failure: failure.clone(), errors }
                }
            },
            None => {
                if errors.len() == 0 {
                    Outcome::Success
                } else {
                    Outcome::RevertFailed { errors }
                }
            },
        }
    }
}

/// Copies a list of failures.
fn clone_failures(failures: &Vec<Failure>) -> (copy: Vec<Failure>)
    ensures
        copy.deep_view() == failures.deep_view(),
{
    let mut copy: Vec<Failure> = Vec::new();
    let mut i: usize = 0;
    while i < failures.len()
        invariant
            i <= failures.len(),
            copy.len() == i,
            forall|j: int| 0 <= j < i ==> copy[j]@ == failures[j]@,
        decreases failures.len() - i,
    {
        copy.push(failures[i].clone());
        i += 1;
    }
    assert(copy.deep_view() =~= failures.deep_view());
    copy
}

/// The states of a list of actions, in order.
pub open spec fn states_of<A>(items: Seq<StatefulAction<A>>) -> Seq<ActionState> {
    Seq::new(items.len(), |i: int| items[i].state)
}

/// A plan under a pass, and what the pass asks for.
pub struct Settled<A> {
    /// The actions with their states.
    pub items: Seq<StatefulAction<A>>,
    /// Where the pass stands.
    pub pass: PassView,
    /// What the driver is to do next.
    pub next: NextView,
}

/// Carries a pass on until it needs its driver or is over.
///
/// Going forward, the action at the position takes one step of executing.
/// A request stops the pass there; success moves it to the next action; an
/// error turns it around at that action. Past the last action the pass is
/// over.
///
/// In reverse, the action before the position takes one step of reverting.
/// A request stops the pass there; success moves it to the action before;
/// an error is put on record and moves it on all the same. Before the first
/// action the pass is over.
pub open spec fn settle<A: Action>(items: Seq<StatefulAction<A>>, pass: PassView) -> Settled<A>
    decreases
            (if pass.forward {
                1nat
            } else {
                0nat
            }),
            (if pass.forward {
                items.len() - pass.position
            } else {
                pass.position as int
            }),
{
    if pass.forward {
        if pass.position >= items.len() {
            Settled { items, pass, next: NextView::Finished(pass.outcome()) }
        } else {
            let index = pass.position as int;
            let (item, step) = items[index].executed(pass.responses);
            match step {
                StepView::Perform(request) => Settled {
                    items: items.update(index, item),
                    pass,
                    next: NextView::Perform(request),
                },
                StepView::Done => settle(items.update(index, item), pass.ahead()),
                StepView::Failed(error) => settle(
                    items.update(index, item),
                    pass.unwind(pass.position, error),
                ),
            }
        }
    } else {
        if pass.position == 0 {
            Settled { items, pass, next: NextView::Finished(pass.outcome()) }
        } else if pass.position > items.len() {
            settle(items, pass.back())
        } else {
            let index = pass.position - 1;
            let (item, step) = items[index].reverted(pass.responses);
            match step {
                StepView::Perform(request) => Settled {
                    items: items.update(index, item),
                    pass,
                    next: NextView::Perform(request),
                },
                StepView::Done => settle(items.update(index, item), pass.back()),
                StepView::Failed(error) => settle(
                    items.update(index, item),
                    pass.back().noting(index as nat, error),
                ),
            }
        }
    }
}

/// An ordered list of actions with their states, and who planned it.
#[derive(Debug)]
pub struct InstallPlan<A> {
    /// The version of the installer that made the plan.
    pub version: String,
    /// The name of the planner that made the plan.
    pub planner: String,
    /// The planner's configuration when it made the plan.
    pub settings: Vec<Setting>,
    /// The actions, in the order the planner gave them.
    pub actions: Vec<StatefulAction<A>>,
}

impl<A: Action> InstallPlan<A> {
    /// The states of the actions, in order.
    pub fn states(&self) -> (states: Vec<ActionState>)
        ensures
            states@ == states_of(self.actions@),
    {
        let mut states: Vec<ActionState> = Vec::new();
        let mut i: usize = 0;
        while i < self.actions.len()
            invariant
                i <= self.actions.len(),
                states.len() == i,
                forall|j: int| 0 <= j < i ==> states[j] == self.actions[j].state,
            decreases self.actions.len() - i,
        {
            states.push(self.actions[i].state);
            i += 1;
        }
        assert(states@ =~= states_of(self.actions@));
        states
    }

    /// Carries `pass` on until it needs the driver or is over.
    fn settle_pass(&mut self, pass: &mut Pass) -> (next: Next)
        ensures
            final(self).version == old(self).version,
            final(self).planner == old(self).planner,
            final(self).settings == old(self).settings,
            ({
                let settled = settle(old(self).actions@, old(pass)@);
                &&& final(self).actions@ == settled.items
                &&& final(pass)@ == settled.pass
                &&& next@ == settled.next
            }),
    {
        loop
            invariant
                self.version == old(self).version,
                self.planner == old(self).planner,
                self.settings == old(self).settings,
                settle(self.actions@, pass@) == settle(old(self).actions@, old(pass)@),
            decreases
                    (if pass@.forward {
                        1nat
                    } else {
                        0nat
                    }),
                    (if pass@.forward {
                        self.actions@.len() - pass@.position
                    } else {
                        pass@.position as int
                    }),
        {
            let ghost items = self.actions@;
            let ghost before = pass@;
            if pass.forward {
                if pass.position >= self.actions.len() {
                    return Next::Finished(pass.outcome());
                }
                let index = pass.position;
                let step = self.actions[index].try_execute(&pass.responses);
                assert(self.actions@ =~= items.update(
                    index as int,
                    items[index as int].executed(before.responses).0,
                ));
                match step {
                    Step::Perform(request) => {
                        return Next::Perform(request);
                    },
                    Step::Finish(Ok(())) => {
                        pass.position = index + 1;
                        pass.responses = Vec::new();
                        assert(pass.responses.deep_view() =~= Seq::<ResponseView>::empty());
                        assert(pass@ == before.ahead());
                    },
                    Step::Finish(Err(error)) => {
                        pass.forward = false;
                        pass.position = index + 1;
                        pass.responses = Vec::new();
                        pass.failure = Some(Failure { index, error });
                        assert(pass.responses.deep_view() =~= Seq::<ResponseView>::empty());
                        assert(pass@ == before.unwind(before.position, error@));
                    },
                }
            } else {
                if pass.position == 0 {
                    return Next::Finished(pass.outcome());
                }
                let index = pass.position - 1;
                if index >= self.actions.len() {
                    pass.position = index;
                    pass.responses = Vec::new();
                    assert(pass.responses.deep_view() =~= Seq::<ResponseView>::empty());
                    assert(pass@ == before.back());
                } else {
                    let step = self.actions[index].try_revert(&pass.responses);
                    assert(self.actions@ =~= items.update(
                        index as int,
                        items[index as int].reverted(before.responses).0,
                    ));
                    match step {
                        Step::Perform(request) => {
                            return Next::Perform(request);
                        },
                        Step::Finish(Ok(())) => {
                            pass.position = index;
                            pass.responses = Vec::new();
                            assert(pass.responses.deep_view() =~= Seq::<ResponseView>::empty());
                            assert(pass@ == before.back());
                        },
                        Step::Finish(Err(error)) => {
                            let ghost noted = pass.errors.deep_view();
                            pass.position = index;
                            pass.responses = Vec::new();
                            pass.errors.push(Failure { index, error });
                            assert(pass.responses.deep_view() =~= Seq::<ResponseView>::empty());
                            assert(pass.errors.deep_view() =~= noted.push(
                                FailureView { index: index as nat, error: error@ },
                            ));
                            assert(pass@ == before.back().noting(index as nat, error@));
                        },
                    }
                }
            }
        }
    }

    /// Takes the driver's report and carries `pass` on: the plan, the pass
    /// and the directive are those of [`settle`], after the response was
    /// added to the ones the pass holds.
    ///
    /// The first call of a pass comes without a response; each later call
    /// brings the response to the request of the call before. The directive
    /// asks for the plan to be persisted exactly when the state of some
    /// action is not what it was before the call. Once the pass is over,
    /// every further call answers with the same outcome.
    pub fn advance(&mut self, pass: &mut Pass, response: Option<Response>) -> (directive: Directive)
        ensures
            final(self).version == old(self).version,
            final(self).planner == old(self).planner,
            final(self).settings == old(self).settings,
            ({
                let settled = settle(old(self).actions@, old(pass)@.report(response.deep_view()));
                &&& final(self).actions@ == settled.items
                &&& final(pass)@ == settled.pass
                &&& directive.next@ == settled.next
                &&& directive.persist == (states_of(settled.items) != states_of(
                    old(self).actions@,
                ))
            }),
    {
        let before = self.states();
        match response {
            Some(response) => {
                let ghost reported = pass.responses.deep_view();
                pass.responses.push(response);
                assert(pass.responses.deep_view() =~= reported.push(response@));
            },
            None => {},
        }
        let next = self.settle_pass(pass);
        let after = self.states();
        Directive { persist: !same_states(&before, &after), next }
    }
}

/// Whether two lists of states are the same.
fn same_states(left: &Vec<ActionState>, right: &Vec<ActionState>) -> (same: bool)
    ensures
        same == (left@ == right@),
{
    if left.len() != right.len() {
        return false;
    }
    let mut i: usize = 0;
    while i < left.len()
        invariant
            i <= left.len(),
            left.len() == right.len(),
            forall|j: int| 0 <= j < i ==> left[j] == right[j],
        decreases left.len() - i,
    {
        if left[i] != right[i] {
            return false;
        }
        i += 1;
    }
    assert(left@ =~= right@);
    true
}

} // verus!
