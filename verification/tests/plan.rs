use nix_installer::action::catalog::CatalogAction;
use nix_installer::action::linux::EnableSystemdUnit;
use nix_installer::action::{ActionErrorKind, ActionState, StatefulAction, Step};
use nix_installer::plan::{Directive, InstallPlan, Next, Outcome, Pass};
use nix_installer::system::{CommandOutput, Request, Response};

fn unit(name: &str) -> StatefulAction<CatalogAction> {
    StatefulAction::uncompleted(CatalogAction::EnableSystemdUnit(EnableSystemdUnit {
        unit: String::from(name),
    }))
}

fn unit_in(name: &str, state: ActionState) -> StatefulAction<CatalogAction> {
    let mut unit = unit(name);
    unit.state = state;
    unit
}

fn plan(actions: Vec<StatefulAction<CatalogAction>>) -> InstallPlan<CatalogAction> {
    InstallPlan {
        version: String::from("0.1.0"),
        planner: String::from("test"),
        settings: Vec::new(),
        actions,
    }
}

fn exit(code: i32) -> Response {
    Response::Ran(Ok(CommandOutput {
        code: Some(code),
        stdout: Vec::new(),
        stderr: b"it did not work".to_vec(),
    }))
}

/// Drives a pass to its end on a machine where every command succeeds but
/// those listed in `failing`. Returns the commands that were run, how often
/// the plan was to be persisted, and the outcome.
fn drive(
    plan: &mut InstallPlan<CatalogAction>,
    mut pass: Pass,
    failing: &[&str],
) -> (Vec<String>, usize, Outcome) {
    let mut commands = Vec::new();
    let mut persisted = 0;
    let mut response = None;
    loop {
        let Directive { persist, next } = plan.advance(&mut pass, response.take());
        if persist {
            persisted += 1;
        }
        match next {
            Next::Perform(Request::Run { command }) => {
                let line = format!("{} {}", command.program, command.args.join(" "));
                response = Some(if failing.contains(&line.as_str()) {
                    exit(1)
                } else {
                    exit(0)
                });
                commands.push(line);
            }
            Next::Perform(other) => panic!("unexpected request {other:?}"),
            Next::Finished(outcome) => return (commands, persisted, outcome),
        }
    }
}

#[test]
fn install_executes_every_action_in_order() {
    let mut plan = plan(vec![unit("a"), unit("b"), unit("c")]);
    let (commands, persisted, outcome) = drive(&mut plan, Pass::install(), &[]);
    assert!(matches!(outcome, Outcome::Success));
    assert_eq!(
        commands,
        vec!["systemctl enable a", "systemctl enable b", "systemctl enable c"]
    );
    assert_eq!(
        plan.states(),
        vec![ActionState::Completed, ActionState::Completed, ActionState::Completed]
    );
    // a: Progress; a: Completed, b: Progress; b: Completed, c: Progress; c: Completed.
    assert_eq!(persisted, 4);
}

#[test]
fn install_skips_what_is_completed() {
    let mut plan = plan(vec![unit_in("a", ActionState::Completed), unit("b")]);
    let (commands, _, outcome) = drive(&mut plan, Pass::install(), &[]);
    assert!(matches!(outcome, Outcome::Success));
    assert_eq!(commands, vec!["systemctl enable b"]);
}

#[test]
fn install_of_an_empty_plan_succeeds_at_once() {
    let mut plan = plan(Vec::new());
    let (commands, persisted, outcome) = drive(&mut plan, Pass::install(), &[]);
    assert!(matches!(outcome, Outcome::Success));
    assert!(commands.is_empty());
    assert_eq!(persisted, 0);
}

#[test]
fn failure_unwinds_in_reverse_and_leaves_the_rest_alone() {
    let mut plan = plan(vec![unit("a"), unit("b"), unit("c"), unit("d")]);
    let (commands, _, outcome) = drive(&mut plan, Pass::install(), &["systemctl enable c"]);
    assert_eq!(
        commands,
        vec![
            "systemctl enable a",
            "systemctl enable b",
            "systemctl enable c",
            "systemctl disable b",
            "systemctl disable a"
        ]
    );
    match outcome {
        Outcome::Unwound { failure } => {
            assert_eq!(failure.index, 2);
            match failure.error.kind() {
                ActionErrorKind::CommandOutput { command, output } => {
                    assert_eq!(command.program, "systemctl");
                    assert_eq!(command.args, vec!["enable", "c"]);
                    assert_eq!(output.code, Some(1));
                    assert_eq!(output.stderr, b"it did not work");
                }
                other => panic!("unexpected error {other:?}"),
            }
            assert_eq!(failure.error.action_tag().0, "enable_systemd_unit");
        }
        other => panic!("unexpected outcome {other:?}"),
    }
    assert_eq!(
        plan.states(),
        vec![
            ActionState::Uncompleted,
            ActionState::Uncompleted,
            ActionState::Progress,
            ActionState::Uncompleted
        ]
    );
}

#[test]
fn failure_of_the_first_action_reverts_nothing() {
    let mut plan = plan(vec![unit("a"), unit("b")]);
    let (commands, _, outcome) = drive(&mut plan, Pass::install(), &["systemctl enable a"]);
    assert_eq!(commands, vec!["systemctl enable a"]);
    assert!(matches!(outcome, Outcome::Unwound { failure } if failure.index == 0));
    assert_eq!(plan.states(), vec![ActionState::Progress, ActionState::Uncompleted]);
}

#[test]
fn failed_reverts_are_collected_and_do_not_stop_the_unwind() {
    let mut plan = plan(vec![unit("a"), unit("b"), unit("c")]);
    let (commands, _, outcome) = drive(
        &mut plan,
        Pass::install(),
        &["systemctl enable c", "systemctl disable b"],
    );
    assert_eq!(
        commands,
        vec![
            "systemctl enable a",
            "systemctl enable b",
            "systemctl enable c",
            "systemctl disable b",
            "systemctl disable a"
        ]
    );
    match outcome {
        Outcome::UnwindFailed { failure, errors } => {
            assert_eq!(failure.index, 2);
            assert_eq!(errors.len(), 1);
            assert_eq!(errors[0].index, 1);
        }
        other => panic!("unexpected outcome {other:?}"),
    }
    assert_eq!(
        plan.states(),
        vec![ActionState::Uncompleted, ActionState::Progress, ActionState::Progress]
    );
}

#[test]
fn unwinding_reverts_what_was_completed_before_the_pass() {
    let mut plan = plan(vec![unit_in("a", ActionState::Completed), unit("b")]);
    let (commands, _, outcome) = drive(&mut plan, Pass::install(), &["systemctl enable b"]);
    assert_eq!(commands, vec!["systemctl enable b", "systemctl disable a"]);
    assert!(matches!(outcome, Outcome::Unwound { failure } if failure.index == 1));
    assert_eq!(plan.states(), vec![ActionState::Uncompleted, ActionState::Progress]);
}

#[test]
fn uninstall_reverts_completed_actions_from_the_end() {
    let mut plan = plan(vec![
        unit_in("a", ActionState::Completed),
        unit_in("b", ActionState::Progress),
        unit_in("c", ActionState::Completed),
    ]);
    let pass = Pass::uninstall(plan.actions.len());
    let (commands, persisted, outcome) = drive(&mut plan, pass, &[]);
    assert!(matches!(outcome, Outcome::Success));
    assert_eq!(commands, vec!["systemctl disable c", "systemctl disable a"]);
    assert_eq!(
        plan.states(),
        vec![ActionState::Uncompleted, ActionState::Progress, ActionState::Uncompleted]
    );
    // c: Progress; c: Uncompleted, a: Progress; a: Uncompleted.
    assert_eq!(persisted, 3);
}

#[test]
fn uninstall_reports_the_reverts_that_failed() {
    let mut plan = plan(vec![
        unit_in("a", ActionState::Completed),
        unit_in("b", ActionState::Completed),
    ]);
    let pass = Pass::uninstall(plan.actions.len());
    let (commands, _, outcome) = drive(&mut plan, pass, &["systemctl disable b"]);
    assert_eq!(commands, vec!["systemctl disable b", "systemctl disable a"]);
    match outcome {
        Outcome::RevertFailed { errors } => {
            assert_eq!(errors.len(), 1);
            assert_eq!(errors[0].index, 1);
        }
        other => panic!("unexpected outcome {other:?}"),
    }
    assert_eq!(plan.states(), vec![ActionState::Uncompleted, ActionState::Progress]);
}

#[test]
fn a_finished_pass_keeps_its_outcome() {
    let mut plan = plan(vec![unit("a")]);
    let mut pass = Pass::install();
    let first = plan.advance(&mut pass, None);
    assert!(matches!(first.next, Next::Perform(_)));
    assert!(first.persist);
    let second = plan.advance(&mut pass, Some(exit(0)));
    assert!(matches!(second.next, Next::Finished(Outcome::Success)));
    assert!(second.persist);
    let third = plan.advance(&mut pass, None);
    assert!(matches!(third.next, Next::Finished(Outcome::Success)));
    assert!(!third.persist);
}

#[test]
fn a_pass_says_where_it_stands() {
    let mut plan = plan(vec![unit("a"), unit("b")]);
    let mut pass = Pass::install();
    assert!(pass.forward());
    assert_eq!(pass.position(), 0);
    plan.advance(&mut pass, None);
    assert_eq!(pass.position(), 0);
    plan.advance(&mut pass, Some(exit(0)));
    assert!(pass.forward());
    assert_eq!(pass.position(), 1);
    // The second action fails: the pass turns around and reverts the first.
    plan.advance(&mut pass, Some(exit(1)));
    assert!(!pass.forward());
    assert_eq!(pass.position(), 1);
    plan.advance(&mut pass, Some(exit(0)));
    assert_eq!(pass.position(), 0);
    let pass = Pass::uninstall(2);
    assert!(!pass.forward());
    assert_eq!(pass.position(), 2);
}

#[test]
fn a_pass_keeps_the_plans_metadata() {
    let mut plan = plan(vec![unit("a")]);
    let mut pass = Pass::install();
    plan.advance(&mut pass, None);
    plan.advance(&mut pass, Some(exit(0)));
    assert_eq!(plan.version, "0.1.0");
    assert_eq!(plan.planner, "test");
    assert!(plan.settings.is_empty());
}

#[test]
fn executing_a_completed_action_does_nothing() {
    let mut done = unit_in("a", ActionState::Completed);
    let step = done.try_execute(&Vec::new());
    assert!(matches!(step, Step::Finish(Ok(()))));
    assert_eq!(done.state, ActionState::Completed);
    // Not even with responses at hand.
    let step = done.try_execute(&vec![exit(1)]);
    assert!(matches!(step, Step::Finish(Ok(()))));
    assert_eq!(done.state, ActionState::Completed);
}

#[test]
fn reverting_an_uncompleted_action_does_nothing() {
    let mut fresh = unit("a");
    let step = fresh.try_revert(&Vec::new());
    assert!(matches!(step, Step::Finish(Ok(()))));
    assert_eq!(fresh.state, ActionState::Uncompleted);
    let step = fresh.try_revert(&vec![exit(1)]);
    assert!(matches!(step, Step::Finish(Ok(()))));
    assert_eq!(fresh.state, ActionState::Uncompleted);
}

#[test]
fn a_failed_action_stays_in_progress() {
    let mut failing = unit("a");
    assert!(matches!(failing.try_execute(&Vec::new()), Step::Perform(_)));
    assert_eq!(failing.state, ActionState::Progress);
    let step = failing.try_execute(&vec![exit(1)]);
    assert!(matches!(step, Step::Finish(Err(_))));
    assert_eq!(failing.state, ActionState::Progress);
    // A revert does not start from Progress.
    assert!(matches!(failing.try_revert(&Vec::new()), Step::Finish(Ok(()))));
    assert_eq!(failing.state, ActionState::Progress);
}

#[test]
fn execute_then_revert_passes_through_progress() {
    let mut action = unit("a");
    assert!(matches!(action.try_execute(&Vec::new()), Step::Perform(_)));
    assert_eq!(action.state, ActionState::Progress);
    assert!(matches!(action.try_execute(&vec![exit(0)]), Step::Finish(Ok(()))));
    assert_eq!(action.state, ActionState::Completed);
    assert!(matches!(action.try_revert(&Vec::new()), Step::Perform(_)));
    assert_eq!(action.state, ActionState::Progress);
    assert!(matches!(action.try_revert(&vec![exit(0)]), Step::Finish(Ok(()))));
    assert_eq!(action.state, ActionState::Uncompleted);
}

fn mixed() -> InstallPlan<CatalogAction> {
    plan(vec![
        unit_in("a", ActionState::Completed),
        unit_in("b", ActionState::Completed),
        unit_in("c", ActionState::Progress),
        unit("d"),
    ])
}

#[test]
fn a_plan_built_again_from_its_data_reverts_alike() {
    // A plan in the middle of an install, and the plan made anew from the
    // same names and states, as one read back from disk is.
    let mut first = mixed();
    let mut second = mixed();
    let (first_commands, _, first_outcome) = drive(
        &mut first,
        Pass::uninstall(4),
        &["systemctl disable a"],
    );
    let (second_commands, _, second_outcome) = drive(
        &mut second,
        Pass::uninstall(4),
        &["systemctl disable a"],
    );
    assert_eq!(first_commands, vec!["systemctl disable b", "systemctl disable a"]);
    assert_eq!(first_commands, second_commands);
    assert_eq!(first.states(), second.states());
    assert_eq!(
        first.states(),
        vec![
            ActionState::Progress,
            ActionState::Uncompleted,
            ActionState::Progress,
            ActionState::Uncompleted
        ]
    );
    assert!(matches!(first_outcome, Outcome::RevertFailed { errors } if errors.len() == 1));
    assert!(matches!(second_outcome, Outcome::RevertFailed { errors } if errors.len() == 1));
}
