//! What holds of every pass over a plan.
//!
//! A pass is driven by calls: the first without a response, each later one
//! with the response to the request of the call before. [`replay`] gives
//! the plan and the pass after such a series of calls. The laws below hold
//! for every plan, every kind of action and every series of responses.

use vstd::prelude::*;
use crate::action::{same_scripts, Action, ActionState, StatefulAction, StepView};
use crate::plan::{settle, FailureView, NextView, OutcomeView, PassView, Settled};
use crate::system::ResponseView;

verus! {

/// The plan and the pass after the driver made the first call of a pass
/// that starts as `pass` and then reported `reports`, one with each call.
pub open spec fn replay<A: Action>(
    items: Seq<StatefulAction<A>>,
    pass: PassView,
    reports: Seq<ResponseView>,
) -> Settled<A>
    decreases reports.len(),
{
    if reports.len() == 0 {
        settle(items, pass)
    } else {
        let before = replay(items, pass, reports.drop_last());
        settle(before.items, before.pass.report(Some(reports.last())))
    }
}

/// Whether a failed revert of the action at `index` is on record.
pub open spec fn failed_at(errors: Seq<FailureView>, index: int) -> bool {
    exists|n: int| 0 <= n < errors.len() && (#[trigger] errors[n]).index == index
}

/// What reverting leaves of an action: it is `Uncompleted`, or it is in
/// `Progress` and its failure is on record.
pub open spec fn unwound(state: ActionState, errors: Seq<FailureView>, index: int) -> bool {
    if failed_at(errors, index) {
        state == ActionState::Progress
    } else {
        state == ActionState::Uncompleted
    }
}

proof fn lemma_failed_at_push(errors: Seq<FailureView>, failure: FailureView, index: int)
    ensures
        failed_at(errors.push(failure), index) <==> failed_at(errors, index) || failure.index
            == index,
{
    let pushed = errors.push(failure);
    if failed_at(errors, index) {
        let n = choose|n: int| 0 <= n < errors.len() && (#[trigger] errors[n]).index == index;
        assert(pushed[n] == errors[n]);
    }
    if failure.index == index {
        assert(pushed[errors.len() as int] == failure);
    }
    if failed_at(pushed, index) {
        let n = choose|n: int| 0 <= n < pushed.len() && (#[trigger] pushed[n]).index == index;
        if n < errors.len() {
            assert(errors[n] == pushed[n]);
        }
    }
}

/// What every point of an install has in common with its start.
spec fn installing<A: Action>(
    start: Seq<StatefulAction<A>>,
    items: Seq<StatefulAction<A>>,
    pass: PassView,
) -> bool {
    &&& items.len() == start.len()
    &&& forall|j: int| 0 <= j < items.len() ==> (#[trigger] items[j]).action == start[j].action
    &&& if pass.forward {
        &&& pass.failure is None
        &&& pass.errors.len() == 0
        &&& forall|j: int|
            0 <= j < items.len() && j < pass.position ==> (#[trigger] items[j]).state
                == ActionState::Completed
        &&& forall|j: int| pass.position < j < items.len() ==> #[trigger] items[j] == start[j]
    } else {
        &&& pass.failure is Some
        &&& pass.failure->0.index < items.len()
        &&& pass.position <= pass.failure->0.index + 1
        &&& items[pass.failure->0.index as int].state == ActionState::Progress
        &&& forall|j: int|
            pass.failure->0.index < j < items.len() ==> #[trigger] items[j] == start[j]
        &&& forall|j: int|
            0 <= j < pass.position - 1 ==> (#[trigger] items[j]).state == ActionState::Completed
        &&& forall|j: int|
            pass.position <= j < pass.failure->0.index ==> unwound(
                (#[trigger] items[j]).state,
                pass.errors,
                j,
            )
        &&& forall|n: int|
            0 <= n < pass.errors.len() ==> pass.position <= (#[trigger] pass.errors[n]).index
                < pass.failure->0.index
    }
}

/// What holds of the action an install is at when a call comes in.
spec fn install_called<A: Action>(items: Seq<StatefulAction<A>>, pass: PassView) -> bool {
    !pass.forward && pass.position >= 1 ==> if pass.position == pass.failure->0.index + 1 {
        pass.responses.len() == 0
    } else {
        items[pass.position - 1].state == ActionState::Completed || (items[pass.position
            - 1].state == ActionState::Progress && pass.responses.len() > 0)
    }
}

/// What holds of an install when a call returns.
spec fn install_answered<A: Action>(settled: Settled<A>) -> bool {
    let pass = settled.pass;
    &&& !pass.forward ==> pass.position <= pass.failure->0.index
    &&& match settled.next {
        NextView::Perform(_) => if pass.forward {
            pass.position < settled.items.len()
        } else {
            pass.position >= 1 && settled.items[pass.position - 1].state
                == ActionState::Progress
        },
        NextView::Finished(outcome) => outcome == pass.outcome() && if pass.forward {
            pass.position >= settled.items.len()
        } else {
            pass.position == 0
        },
    }
}

proof fn lemma_install_settles<A: Action>(
    start: Seq<StatefulAction<A>>,
    items: Seq<StatefulAction<A>>,
    pass: PassView,
)
    requires
        installing(start, items, pass),
        install_called(items, pass),
    ensures
        installing(start, settle(items, pass).items, settle(items, pass).pass),
        install_answered(settle(items, pass)),
    decreases
            (if pass.forward {
                1nat
            } else {
                0nat
            }),
            (if pass.forward {
                items.len() - pass.position
            } else {
                pass.position as int
            }),
{
    if pass.forward {
        if pass.position < items.len() {
            let index = pass.position as int;
            let (item, step) = items[index].executed(pass.responses);
            let changed = items.update(index, item);
            assert(forall|j: int| 0 <= j < items.len() && j != index ==> changed[j] == items[j]);
            match step {
                StepView::Perform(request) => {},
                StepView::Done => {

                    lemma_install_settles(start, changed, pass.ahead());
                },
                StepView::Failed(error) => {
                    lemma_install_settles(start, changed, pass.unwind(pass.position, error));
                },
            }
        }
    } else if pass.position > 0 {
        let failed = pass.failure->0.index as int;
        let index = pass.position - 1;
        let (item, step) = items[index].reverted(pass.responses);
        let changed = items.update(index, item);
        assert(forall|j: int| 0 <= j < items.len() && j != index ==> changed[j] == items[j]);
        match step {
            StepView::Perform(request) => {},
            StepView::Done => {
                assert(!failed_at(pass.errors, index));
                lemma_install_settles(start, changed, pass.back());
            },
            StepView::Failed(error) => {
                let noted = pass.back().noting(index as nat, error);
                assert forall|j: int| noted.position <= j < failed implies unwound(
                    (#[trigger] changed[j]).state,
                    noted.errors,
                    j,
                ) by {
                    lemma_failed_at_push(
                        pass.errors,
                        FailureView { index: index as nat, error },
                        j,
                    );
                }
                lemma_install_settles(start, changed, noted);
            },
        }
    }
}

proof fn lemma_install_replays<A: Action>(
    start: Seq<StatefulAction<A>>,
    reports: Seq<ResponseView>,
)
    ensures
        installing(
            start,
            replay(start, PassView::install(), reports).items,
            replay(start, PassView::install(), reports).pass,
        ),
        install_answered(replay(start, PassView::install(), reports)),
    decreases reports.len(),
{
    if reports.len() == 0 {
        lemma_install_settles(start, start, PassView::install());
    } else {
        lemma_install_replays(start, reports.drop_last());
        let before = replay(start, PassView::install(), reports.drop_last());
        lemma_install_settles(start, before.items, before.pass.report(Some(reports.last())));
    }
}

/// How an install leaves the actions.
///
/// Whatever the responses: the pass keeps the actions and their order. If
/// it ends in success, every action is `Completed`. If it ends because the
/// action at `failure.index` failed, then that action is left in
/// `Progress`; every action after it is exactly as it was before the pass;
/// and every action before it is `Uncompleted`, but for those whose own
/// revert failed, which are in `Progress` and are the ones on record. An
/// install never ends as a failed uninstall.
pub proof fn lemma_install_unwinds_completely<A: Action>(
    items: Seq<StatefulAction<A>>,
    reports: Seq<ResponseView>,
)
    ensures
        ({
            let end = replay(items, PassView::install(), reports);
            &&& end.items.len() == items.len()
            &&& forall|j: int|
                0 <= j < items.len() ==> (#[trigger] end.items[j]).action == items[j].action
            &&& match end.next {
                NextView::Perform(_) => true,
                NextView::Finished(OutcomeView::Success) => forall|j: int|
                    0 <= j < items.len() ==> (#[trigger] end.items[j]).state
                        == ActionState::Completed,
                NextView::Finished(OutcomeView::Unwound { failure }) => {
                    &&& failure.index < items.len()
                    &&& end.items[failure.index as int].state == ActionState::Progress
                    &&& forall|j: int|
                        0 <= j < failure.index ==> (#[trigger] end.items[j]).state
                            == ActionState::Uncompleted
                    &&& forall|j: int|
                        failure.index < j < items.len() ==> #[trigger] end.items[j] == items[j]
                },
                NextView::Finished(OutcomeView::UnwindFailed { failure, errors }) => {
                    &&& failure.index < items.len()
                    &&& end.items[failure.index as int].state == ActionState::Progress
                    &&& forall|j: int|
                        0 <= j < failure.index ==> unwound(
                            (#[trigger] end.items[j]).state,
                            errors,
                            j,
                        )
                    &&& forall|n: int|
                        0 <= n < errors.len() ==> (#[trigger] errors[n]).index < failure.index
                    &&& forall|j: int|
                        failure.index < j < items.len() ==> #[trigger] end.items[j] == items[j]
                },
                NextView::Finished(OutcomeView::RevertFailed { errors }) => false,
            }
        }),
{
    lemma_install_replays(items, reports);
    let end = replay(items, PassView::install(), reports);
    match end.next {
        NextView::Finished(OutcomeView::Unwound { failure }) => {
            assert forall|j: int| 0 <= j < failure.index implies (#[trigger] end.items[j]).state
                == ActionState::Uncompleted by {
                assert(unwound(end.items[j].state, end.pass.errors, j));
            }
        },
        _ => {},
    }
}

/// What every point of an uninstall has in common with its start.
spec fn uninstalling<A: Action>(
    start: Seq<StatefulAction<A>>,
    items: Seq<StatefulAction<A>>,
    pass: PassView,
) -> bool {
    &&& items.len() == start.len()
    &&& forall|j: int| 0 <= j < items.len() ==> (#[trigger] items[j]).action == start[j].action
    &&& !pass.forward
    &&& pass.failure is None
    &&& pass.position <= items.len()
    &&& forall|j: int| 0 <= j < pass.position - 1 ==> #[trigger] items[j] == start[j]
    &&& forall|j: int|
        pass.position <= j < items.len() ==> reverted_from(
            start[j],
            #[trigger] items[j],
            pass.errors,
            j,
        )
    &&& forall|n: int|
        0 <= n < pass.errors.len() ==> pass.position <= (#[trigger] pass.errors[n]).index
            < items.len()
}

/// What an uninstall leaves of an action: one that was `Completed` is
/// `Uncompleted`, or in `Progress` with its failure on record; any other is
/// as it was, and nothing is on record for it.
pub open spec fn reverted_from<A: Action>(
    before: StatefulAction<A>,
    after: StatefulAction<A>,
    errors: Seq<FailureView>,
    index: int,
) -> bool {
    if before.state == ActionState::Completed {
        after.action == before.action && unwound(after.state, errors, index)
    } else {
        after == before && !failed_at(errors, index)
    }
}

/// What holds of the action an uninstall is at when a call comes in.
spec fn uninstall_called<A: Action>(
    start: Seq<StatefulAction<A>>,
    items: Seq<StatefulAction<A>>,
    pass: PassView,
) -> bool {
    pass.position >= 1 ==> {
        let index = pass.position - 1;
        ||| items[index] == start[index] && pass.responses.len() == 0
        ||| start[index].state == ActionState::Completed && items[index].state
            == ActionState::Progress && pass.responses.len() > 0
    }
}

/// What holds of an uninstall when a call returns.
spec fn uninstall_answered<A: Action>(start: Seq<StatefulAction<A>>, settled: Settled<A>) -> bool {
    let pass = settled.pass;
    match settled.next {
        NextView::Perform(_) => pass.position >= 1 && start[pass.position - 1].state
            == ActionState::Completed && settled.items[pass.position - 1].state
            == ActionState::Progress,
        NextView::Finished(outcome) => outcome == pass.outcome() && pass.position == 0,
    }
}

proof fn lemma_uninstall_settles<A: Action>(
    start: Seq<StatefulAction<A>>,
    items: Seq<StatefulAction<A>>,
    pass: PassView,
)
    requires
        uninstalling(start, items, pass),
        uninstall_called(start, items, pass),
    ensures
        uninstalling(start, settle(items, pass).items, settle(items, pass).pass),
        uninstall_answered(start, settle(items, pass)),
    decreases pass.position,
{
    if pass.position > 0 {
        let index = pass.position - 1;
        let (item, step) = items[index].reverted(pass.responses);
        let changed = items.update(index, item);
        assert(forall|j: int| 0 <= j < items.len() && j != index ==> changed[j] == items[j]);
        assert(!failed_at(pass.errors, index));
        match step {
            StepView::Perform(request) => {},
            StepView::Done => {
                lemma_uninstall_settles(start, changed, pass.back());
            },
            StepView::Failed(error) => {
                let noted = pass.back().noting(index as nat, error);
                assert forall|j: int| noted.position <= j < items.len() implies reverted_from(
                    start[j],
                    #[trigger] changed[j],
                    noted.errors,
                    j,
                ) by {
                    lemma_failed_at_push(
                        pass.errors,
                        FailureView { index: index as nat, error },
                        j,
                    );
                }
                lemma_uninstall_settles(start, changed, noted);
            },
        }
    }
}

proof fn lemma_uninstall_replays<A: Action>(
    start: Seq<StatefulAction<A>>,
    reports: Seq<ResponseView>,
)
    ensures
        uninstalling(
            start,
            replay(start, PassView::uninstall(start.len()), reports).items,
            replay(start, PassView::uninstall(start.len()), reports).pass,
        ),
        uninstall_answered(start, replay(start, PassView::uninstall(start.len()), reports)),
    decreases reports.len(),
{
    let pass = PassView::uninstall(start.len());
    if reports.len() == 0 {
        lemma_uninstall_settles(start, start, pass);
    } else {
        lemma_uninstall_replays(start, reports.drop_last());
        let before = replay(start, pass, reports.drop_last());
        lemma_uninstall_settles(start, before.items, before.pass.report(Some(reports.last())));
    }
}

/// An uninstall reverts every completed action and no other.
///
/// Whatever the responses: the pass keeps the actions and their order. When
/// it is over, every action that was `Completed` is `Uncompleted`, but for
/// those whose revert failed, which are in `Progress` and are the ones on
/// record; every other action is exactly as it was. The pass ends in
/// success when nothing is on record, and as a failed revert otherwise.
pub proof fn lemma_uninstall_reverts_all<A: Action>(
    items: Seq<StatefulAction<A>>,
    reports: Seq<ResponseView>,
)
    ensures
        ({
            let end = replay(items, PassView::uninstall(items.len()), reports);
            &&& end.items.len() == items.len()
            &&& forall|j: int|
                0 <= j < items.len() ==> (#[trigger] end.items[j]).action == items[j].action
            &&& match end.next {
                NextView::Perform(_) => true,
                NextView::Finished(OutcomeView::Success) => forall|j: int|
                    0 <= j < items.len() ==> reverted_from(
                        items[j],
                        #[trigger] end.items[j],
                        Seq::empty(),
                        j,
                    ),
                NextView::Finished(OutcomeView::RevertFailed { errors }) => {
                    &&& forall|j: int|
                        0 <= j < items.len() ==> reverted_from(
                            items[j],
                            #[trigger] end.items[j],
                            errors,
                            j,
                        )
                    &&& forall|n: int|
                        0 <= n < errors.len() ==> (#[trigger] errors[n]).index < items.len()
                },
                NextView::Finished(_) => false,
            }
        }),
{
    lemma_uninstall_replays(items, reports);
    let end = replay(items, PassView::uninstall(items.len()), reports);
    match end.next {
        NextView::Finished(OutcomeView::Success) => {
            assert(end.pass.errors =~= Seq::empty());
        },
        _ => {},
    }
}

/// A request is always made for the action the pass is at: going forward
/// it is the step of that action's forward script, in reverse the step of
/// the reverse script of the action before the position.
pub proof fn lemma_request_is_of_the_action_at_hand<A: Action>(
    items: Seq<StatefulAction<A>>,
    pass: PassView,
)
    ensures
        ({
            let settled = settle(items, pass);
            settled.next matches NextView::Perform(request) ==> if settled.pass.forward {
                &&& settled.pass.position < items.len()
                &&& items[settled.pass.position as int].action.execute_script(
                    settled.pass.responses,
                ) == StepView::Perform(request)
            } else {
                &&& 1 <= settled.pass.position <= items.len()
                &&& items[settled.pass.position - 1].action.revert_script(settled.pass.responses)
                    == StepView::Perform(request)
            }
        }),
    decreases
            (if pass.forward {
                1nat
            } else {
                0nat
            }),
            (if pass.forward {
                items.len() - pass.position
            } else {
                pass.position as int
            }),
{
    lemma_settle_keeps_actions(items, pass);
    if pass.forward {
        if pass.position < items.len() {
            let index = pass.position as int;
            let (item, step) = items[index].executed(pass.responses);
            let changed = items.update(index, item);
            match step {
                StepView::Perform(request) => {},
                StepView::Done => {
                    lemma_settle_keeps_actions(changed, pass.ahead());
                    lemma_request_is_of_the_action_at_hand(changed, pass.ahead());
                },
                StepView::Failed(error) => {
                    lemma_settle_keeps_actions(changed, pass.unwind(pass.position, error));
                    lemma_request_is_of_the_action_at_hand(
                        changed,
                        pass.unwind(pass.position, error),
                    );
                },
            }
        }
    } else if pass.position > 0 {
        if pass.position > items.len() {
            lemma_request_is_of_the_action_at_hand(items, pass.back());
        } else {
            let index = pass.position - 1;
            let (item, step) = items[index].reverted(pass.responses);
            let changed = items.update(index, item);
            match step {
                StepView::Perform(request) => {},
                StepView::Done => {
                    lemma_settle_keeps_actions(changed, pass.back());
                    lemma_request_is_of_the_action_at_hand(changed, pass.back());
                },
                StepView::Failed(error) => {
                    lemma_settle_keeps_actions(changed, pass.back().noting(index as nat, error));
                    lemma_request_is_of_the_action_at_hand(
                        changed,
                        pass.back().noting(index as nat, error),
                    );
                },
            }
        }
    }
}

/// A pass changes states only: the actions and their order stay.
pub proof fn lemma_settle_keeps_actions<A: Action>(items: Seq<StatefulAction<A>>, pass: PassView)
    ensures
        settle(items, pass).items.len() == items.len(),
        forall|j: int|
            0 <= j < items.len() ==> (#[trigger] settle(items, pass).items[j]).action
                == items[j].action,
    decreases
            (if pass.forward {
                1nat
            } else {
                0nat
            }),
            (if pass.forward {
                items.len() - pass.position
            } else {
                pass.position as int
            }),
{
    if pass.forward {
        if pass.position < items.len() {
            let index = pass.position as int;
            let (item, step) = items[index].executed(pass.responses);
            let changed = items.update(index, item);
            assert(forall|j: int| 0 <= j < items.len() && j != index ==> changed[j] == items[j]);
            match step {
                StepView::Perform(request) => {},
                StepView::Done => {
                    lemma_settle_keeps_actions(changed, pass.ahead());
                },
                StepView::Failed(error) => {
                    lemma_settle_keeps_actions(changed, pass.unwind(pass.position, error));
                },
            }
        }
    } else if pass.position > 0 {
        if pass.position > items.len() {
            lemma_settle_keeps_actions(items, pass.back());
        } else {
            let index = pass.position - 1;
            let (item, step) = items[index].reverted(pass.responses);
            let changed = items.update(index, item);
            assert(forall|j: int| 0 <= j < items.len() && j != index ==> changed[j] == items[j]);
            match step {
                StepView::Perform(request) => {},
                StepView::Done => {
                    lemma_settle_keeps_actions(changed, pass.back());
                },
                StepView::Failed(error) => {
                    lemma_settle_keeps_actions(changed, pass.back().noting(index as nat, error));
                },
            }
        }
    }
}

/// Whether a pass at `earlier` can have come to `later`: a pass moves
/// forward until an action fails, turns around at that action once, and
/// from there on moves back.
pub open spec fn comes_before(earlier: PassView, later: PassView) -> bool {
    if later.forward {
        earlier.forward && earlier.position <= later.position
    } else if earlier.forward {
        later.failure matches Some(failure) && earlier.position <= failure.index
    } else {
        later.failure == earlier.failure && later.position <= earlier.position
    }
}

proof fn lemma_settle_moves_on<A: Action>(items: Seq<StatefulAction<A>>, pass: PassView)
    ensures
        comes_before(pass, settle(items, pass).pass),
    decreases
            (if pass.forward {
                1nat
            } else {
                0nat
            }),
            (if pass.forward {
                items.len() - pass.position
            } else {
                pass.position as int
            }),
{
    if pass.forward {
        if pass.position < items.len() {
            let index = pass.position as int;
            let (item, step) = items[index].executed(pass.responses);
            let changed = items.update(index, item);
            match step {
                StepView::Perform(request) => {},
                StepView::Done => {
                    lemma_settle_moves_on(changed, pass.ahead());
                },
                StepView::Failed(error) => {
                    lemma_settle_moves_on(changed, pass.unwind(pass.position, error));
                },
            }
        }
    } else if pass.position > 0 {
        if pass.position > items.len() {
            lemma_settle_moves_on(items, pass.back());
        } else {
            let index = pass.position - 1;
            let (item, step) = items[index].reverted(pass.responses);
            let changed = items.update(index, item);
            match step {
                StepView::Perform(request) => {},
                StepView::Done => {
                    lemma_settle_moves_on(changed, pass.back());
                },
                StepView::Failed(error) => {
                    lemma_settle_moves_on(changed, pass.back().noting(index as nat, error));
                },
            }
        }
    }
}

/// A pass never goes back to an action it has left, and never beyond the
/// action that failed.
///
/// Take any point of a pass, after the first `earlier` reports, and any
/// later point: the first [`comes_before`] the second. While the pass goes
/// forward, the earlier position is no later in the plan. Once an action
/// has failed, every forward position there was is at or before that
/// action, and in reverse the position only falls.
pub proof fn lemma_pass_keeps_order<A: Action>(
    items: Seq<StatefulAction<A>>,
    pass: PassView,
    reports: Seq<ResponseView>,
    earlier: int,
)
    requires
        0 <= earlier <= reports.len(),
    ensures
        comes_before(
            replay(items, pass, reports.take(earlier)).pass,
            replay(items, pass, reports).pass,
        ),
    decreases reports.len(),
{
    if earlier == reports.len() {
        assert(reports.take(earlier) =~= reports);
    } else {
        let before = replay(items, pass, reports.drop_last());
        assert(reports.drop_last().take(earlier) =~= reports.take(earlier));
        lemma_pass_keeps_order(items, pass, reports.drop_last(), earlier);
        lemma_settle_moves_on(before.items, before.pass.report(Some(reports.last())));
    }
}

/// An install that has turned around stays before the action that failed.
///
/// Whatever the responses: once an install goes in reverse, a failure is
/// on record, it names an action of the plan, and the pass stands at an
/// action before that one or at the end. With
/// [`lemma_request_is_of_the_action_at_hand`] and
/// [`lemma_pass_keeps_order`]: no request is ever made for an action
/// behind the failed one, and none to revert the failed one itself.
pub proof fn lemma_install_reverts_before_failure<A: Action>(
    items: Seq<StatefulAction<A>>,
    reports: Seq<ResponseView>,
)
    ensures
        ({
            let end = replay(items, PassView::install(), reports);
            !end.pass.forward ==> end.pass.failure is Some && end.pass.failure->0.index
                < items.len() && end.pass.position <= end.pass.failure->0.index
        }),
{
    lemma_install_replays(items, reports);
}

/// Whether two actions with their states cannot be told apart by running
/// them: they are in the same state and their scripts agree on every
/// series of responses.
pub open spec fn alike<A: Action>(left: StatefulAction<A>, right: StatefulAction<A>) -> bool {
    left.state == right.state && same_scripts(left.action, right.action)
}

/// Whether two plans are [`alike`] action by action.
pub open spec fn plans_alike<A: Action>(
    left: Seq<StatefulAction<A>>,
    right: Seq<StatefulAction<A>>,
) -> bool {
    &&& left.len() == right.len()
    &&& forall|j: int| 0 <= j < left.len() ==> alike(#[trigger] left[j], right[j])
}

proof fn lemma_settle_alike<A: Action>(
    left: Seq<StatefulAction<A>>,
    right: Seq<StatefulAction<A>>,
    pass: PassView,
)
    requires
        plans_alike(left, right),
    ensures
        plans_alike(settle(left, pass).items, settle(right, pass).items),
        settle(left, pass).pass == settle(right, pass).pass,
        settle(left, pass).next == settle(right, pass).next,
    decreases
            (if pass.forward {
                1nat
            } else {
                0nat
            }),
            (if pass.forward {
                left.len() - pass.position
            } else {
                pass.position as int
            }),
{
    if pass.forward {
        if pass.position < left.len() {
            let index = pass.position as int;
            assert(alike(left[index], right[index]));
            let (left_item, step) = left[index].executed(pass.responses);
            let (right_item, right_step) = right[index].executed(pass.responses);
            assert(step == right_step);
            let left_changed = left.update(index, left_item);
            let right_changed = right.update(index, right_item);
            assert forall|j: int| 0 <= j < left.len() implies alike(
                #[trigger] left_changed[j],
                right_changed[j],
            ) by {
                if j != index {
                    assert(alike(left[j], right[j]));
                }
            }
            match step {
                StepView::Perform(request) => {},
                StepView::Done => {
                    lemma_settle_alike(left_changed, right_changed, pass.ahead());
                },
                StepView::Failed(error) => {
                    lemma_settle_alike(
                        left_changed,
                        right_changed,
                        pass.unwind(pass.position, error),
                    );
                },
            }
        }
    } else if pass.position > 0 {
        if pass.position > left.len() {
            lemma_settle_alike(left, right, pass.back());
        } else {
            let index = pass.position - 1;
            assert(alike(left[index], right[index]));
            let (left_item, step) = left[index].reverted(pass.responses);
            let (right_item, right_step) = right[index].reverted(pass.responses);
            assert(step == right_step);
            let left_changed = left.update(index, left_item);
            let right_changed = right.update(index, right_item);
            assert forall|j: int| 0 <= j < left.len() implies alike(
                #[trigger] left_changed[j],
                right_changed[j],
            ) by {
                if j != index {
                    assert(alike(left[j], right[j]));
                }
            }
            match step {
                StepView::Perform(request) => {},
                StepView::Done => {
                    lemma_settle_alike(left_changed, right_changed, pass.back());
                },
                StepView::Failed(error) => {
                    lemma_settle_alike(
                        left_changed,
                        right_changed,
                        pass.back().noting(index as nat, error),
                    );
                },
            }
        }
    }
}

/// A plan that was written out and read back behaves as the plan it was
/// written from.
///
/// Take two plans that are [`plans_alike`], as a plan and its reloaded
/// copy are when the copy holds the same states and actions whose scripts
/// are the same. Whatever the pass and whatever the responses: both make
/// the same requests, end with the same outcome, and leave plans that are
/// alike again.
pub proof fn lemma_reloaded_plan_behaves_alike<A: Action>(
    plan: Seq<StatefulAction<A>>,
    reloaded: Seq<StatefulAction<A>>,
    pass: PassView,
    reports: Seq<ResponseView>,
)
    requires
        plans_alike(plan, reloaded),
    ensures
        plans_alike(replay(plan, pass, reports).items, replay(reloaded, pass, reports).items),
        replay(plan, pass, reports).pass == replay(reloaded, pass, reports).pass,
        replay(plan, pass, reports).next == replay(reloaded, pass, reports).next,
    decreases reports.len(),
{
    if reports.len() == 0 {
        lemma_settle_alike(plan, reloaded, pass);
    } else {
        lemma_reloaded_plan_behaves_alike(plan, reloaded, pass, reports.drop_last());
        let before = replay(plan, pass, reports.drop_last());
        let again = replay(reloaded, pass, reports.drop_last());
        lemma_settle_alike(
            before.items,
            again.items,
            before.pass.report(Some(reports.last())),
        );
    }
}

proof fn lemma_completed_from<A: Action>(items: Seq<StatefulAction<A>>, pass: PassView)
    requires
        pass.forward,
        pass.position <= items.len(),
        forall|j: int|
            pass.position <= j < items.len() ==> (#[trigger] items[j]).state
                == ActionState::Completed,
    ensures
        settle(items, pass).items == items,
        settle(items, pass).next == NextView::Finished(pass.outcome()),
    decreases items.len() - pass.position,
{
    if pass.position < items.len() {
        let index = pass.position as int;
        assert(items[index].state == ActionState::Completed);
        assert(items.update(index, items[index]) =~= items);
        lemma_completed_from(items, pass.ahead());
    }
}

proof fn lemma_uncompleted_from<A: Action>(items: Seq<StatefulAction<A>>, pass: PassView)
    requires
        !pass.forward,
        pass.position <= items.len(),
        pass.responses.len() == 0,
        forall|j: int|
            0 <= j < pass.position ==> (#[trigger] items[j]).state != ActionState::Completed,
    ensures
        settle(items, pass).items == items,
        settle(items, pass).next == NextView::Finished(pass.outcome()),
    decreases pass.position,
{
    if pass.position > 0 {
        let index = pass.position - 1;
        assert(items[index].state != ActionState::Completed);
        assert(items.update(index, items[index]) =~= items);
        lemma_uncompleted_from(items, pass.back());
    }
}

/// Installing what is installed does nothing, and uninstalling what is not
/// installed does nothing.
///
/// An install of a plan whose actions are all `Completed` is over with the
/// first call: it asks for nothing, changes nothing and ends in success.
/// So is an uninstall of a plan none of whose actions is `Completed`.
pub proof fn lemma_nothing_to_do<A: Action>(items: Seq<StatefulAction<A>>)
    ensures
        (forall|j: int|
            0 <= j < items.len() ==> (#[trigger] items[j]).state == ActionState::Completed) ==> {
            let end = settle(items, PassView::install());
            end.items == items && end.next == NextView::Finished(OutcomeView::Success)
        },
        (forall|j: int|
            0 <= j < items.len() ==> (#[trigger] items[j]).state != ActionState::Completed) ==> {
            let end = settle(items, PassView::uninstall(items.len()));
            end.items == items && end.next == NextView::Finished(OutcomeView::Success)
        },
{
    if forall|j: int|
        0 <= j < items.len() ==> (#[trigger] items[j]).state == ActionState::Completed {
        lemma_completed_from(items, PassView::install());
    }
    if forall|j: int|
        0 <= j < items.len() ==> (#[trigger] items[j]).state != ActionState::Completed {
        lemma_uncompleted_from(items, PassView::uninstall(items.len()));
    }
}

} // verus!
