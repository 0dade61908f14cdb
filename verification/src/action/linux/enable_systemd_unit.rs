//! Enabling a systemd unit, and disabling it again.

use vstd::prelude::*;
use vstd::string::StringExecFns;
use crate::action::{
    execute_requests, fail, revert_requests, same_scripts, succeeds_backward, succeeds_forward,
    Action, ActionDescription, ActionDescriptionView, ActionError, ActionState, ActionTag,
    StatefulAction, Step, StepView,
};
use crate::command::{command_result, execute_command};
use crate::system::{
    CommandLine, CommandLineView, OsError, Request, RequestView, Response, ResponseView,
};

verus! {

/// Enable a given systemd unit.
#[derive(Debug)]
pub struct EnableSystemdUnit {
    pub unit: String,
}

/// The tag of [`EnableSystemdUnit`].
pub open spec fn enable_systemd_unit_tag() -> Seq<char> {
    "enable_systemd_unit"@
}

/// The command line `systemctl <verb> <unit>`, in a process group of its
/// own and with no standard input.
pub open spec fn systemctl_command(verb: Seq<char>, unit: Seq<char>) -> CommandLineView {
    CommandLineView {
        program: "systemctl"@,
        args: seq![verb, unit],
        process_group: Some(0i32),
        stdin_null: true,
    }
}

/// Running one command: it is asked for, and its response is judged.
pub open spec fn run_script(tag: Seq<char>, command: CommandLineView, responses: Seq<ResponseView>)
    -> StepView {
    if responses.len() == 0 {
        StepView::Perform(RequestView::Run { command })
    } else {
        match command_result(command, responses[0]) {
            Ok(_) => StepView::Done,
            Err(kind) => StepView::fail(tag, kind),
        }
    }
}

impl EnableSystemdUnit {
    /// Plans enabling `unit`. Nothing on the machine is looked at, so
    /// planning cannot fail and the action has yet to run.
    pub fn plan(unit: &str) -> (planned: Result<StatefulAction<Self>, ActionError>)
        ensures
            planned matches Ok(stateful) && stateful.state == ActionState::Uncompleted
                && stateful.action.unit@ == unit@,
    {
        Ok(StatefulAction::uncompleted(EnableSystemdUnit { unit: String::from_str(unit) }))
    }

    /// Follows [`run_script`] for `systemctl <verb> <unit>`.
    fn systemctl(&self, verb: &str, responses: &Vec<Response>) -> (step: Step)
        ensures
            step@ == run_script(
                enable_systemd_unit_tag(),
                systemctl_command(verb@, self.unit@),
                responses.deep_view(),
            ),
    {
        let mut args: Vec<String> = Vec::new();
        args.push(String::from_str(verb));
        args.push(self.unit.clone());
        let command = CommandLine {
            program: String::from_str("systemctl"),
            args,
            process_group: Some(0),
            stdin_null: true,
        };
        assert(command@.args =~= seq![verb@, self.unit@]);
        if responses.len() == 0 {
            Step::Perform(Request::Run { command })
        } else {
            match execute_command(command, &responses[0]) {
                Ok(_) => Step::Finish(Ok(())),
                Err(kind) => fail(ActionTag("enable_systemd_unit"), kind),
            }
        }
    }
}

impl Action for EnableSystemdUnit {
    open spec fn tag(&self) -> Seq<char> {
        enable_systemd_unit_tag()
    }

    open spec fn synopsis(&self) -> Seq<char> {
        "Enable the systemd unit `"@ + self.unit@ + "`"@
    }

    open spec fn execute_explanation(&self) -> Seq<ActionDescriptionView> {
        seq![
            ActionDescriptionView {
                description: self.synopsis(),
                explanation: Seq::<Seq<char>>::empty(),
            },
        ]
    }

    open spec fn revert_explanation(&self) -> Seq<ActionDescriptionView> {
        seq![
            ActionDescriptionView {
                description: "Disable the systemd unit `"@ + self.unit@ + "`"@,
                explanation: Seq::<Seq<char>>::empty(),
            },
        ]
    }

    /// Run `systemctl enable <unit>`.
    open spec fn execute_script(&self, responses: Seq<ResponseView>) -> StepView {
        run_script(enable_systemd_unit_tag(), systemctl_command("enable"@, self.unit@), responses)
    }

    /// Run `systemctl disable <unit>`.
    open spec fn revert_script(&self, responses: Seq<ResponseView>) -> StepView {
        run_script(enable_systemd_unit_tag(), systemctl_command("disable"@, self.unit@), responses)
    }

    fn action_tag(&self) -> (tag: ActionTag) {
        ActionTag("enable_systemd_unit")
    }

    fn tracing_synopsis(&self) -> (synopsis: String) {
        let mut synopsis = String::from_str("Enable the systemd unit `");
        synopsis.append(self.unit.as_str());
        synopsis.append("`");
        synopsis
    }

    fn execute_description(&self) -> (description: Vec<ActionDescription>) {
        let none: Vec<String> = Vec::new();
        assert(none.deep_view() =~= Seq::<Seq<char>>::empty());
        let mut description: Vec<ActionDescription> = Vec::new();
        description.push(ActionDescription::new(self.tracing_synopsis(), none));
        assert(description.deep_view() =~= self.execute_explanation());
        description
    }

    fn revert_description(&self) -> (description: Vec<ActionDescription>) {
        let mut disable = String::from_str("Disable the systemd unit `");
        disable.append(self.unit.as_str());
        disable.append("`");
        let none: Vec<String> = Vec::new();
        assert(none.deep_view() =~= Seq::<Seq<char>>::empty());
        let mut description: Vec<ActionDescription> = Vec::new();
        description.push(ActionDescription::new(disable, none));
        assert(description.deep_view() =~= self.revert_explanation());
        description
    }

    fn execute(&self, responses: &Vec<Response>) -> (step: Step) {
        self.systemctl("enable", responses)
    }

    fn revert(&self, responses: &Vec<Response>) -> (step: Step) {
        self.systemctl("disable", responses)
    }
}

/// What can go wrong with enabling a unit, apart from the action's own
/// errors.
#[non_exhaustive]
#[derive(Debug)]
pub enum EnableSystemdUnitError {
    /// The command could not be executed.
    Command(OsError),
}

impl EnableSystemdUnitError {
    /// The error in words.
    pub fn message(&self) -> (message: String)
        ensures
            message@ == "Failed to execute command"@,
    {
        match self {
            EnableSystemdUnitError::Command(_) => String::from_str("Failed to execute command"),
        }
    }

    /// The system's error behind this one.
    pub fn source(&self) -> (source: &OsError)
        ensures
            self matches EnableSystemdUnitError::Command(error) && *source == *error,
    {
        match self {
            EnableSystemdUnitError::Command(error) => error,
        }
    }
}

/// What enabling a unit asks of the machine when it succeeds, and what its
/// revert asks.
///
/// A forward run that ends in success ran `systemctl enable` on the unit,
/// once, and made no other request. A reverse run that ends in success ran
/// `systemctl disable` on the same unit, once, and made no other request.
pub proof fn lemma_revert_disables_the_unit(
    action: EnableSystemdUnit,
    forward: Seq<ResponseView>,
    backward: Seq<ResponseView>,
)
    ensures
        succeeds_forward(action, forward) ==> execute_requests(action, forward) == seq![
            RequestView::Run { command: systemctl_command("enable"@, action.unit@) },
        ],
        succeeds_backward(action, backward) ==> revert_requests(action, backward) == seq![
            RequestView::Run { command: systemctl_command("disable"@, action.unit@) },
        ],
{
    if succeeds_forward(action, forward) {
        assert(forward.len() >= 1 && action.execute_script(forward.take(0)) is Perform);
        if forward.len() > 1 {
            assert(action.execute_script(forward.take(1)) is Perform);
        }
        assert(execute_requests(action, forward) =~= seq![
            RequestView::Run { command: systemctl_command("enable"@, action.unit@) },
        ]);
    }
    if succeeds_backward(action, backward) {
        assert(backward.len() >= 1 && action.revert_script(backward.take(0)) is Perform);
        if backward.len() > 1 {
            assert(action.revert_script(backward.take(1)) is Perform);
        }
        assert(revert_requests(action, backward) =~= seq![
            RequestView::Run { command: systemctl_command("disable"@, action.unit@) },
        ]);
    }
}

/// The action is run by the unit's name alone: two actions with the same
/// name, as text, have the same scripts.
pub proof fn lemma_unit_runs_by_its_name(left: EnableSystemdUnit, right: EnableSystemdUnit)
    requires
        left.unit@ == right.unit@,
    ensures
        same_scripts(left, right),
{
}

} // verus!
