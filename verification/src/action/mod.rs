//! Actions, their completion state and the rule that makes them idempotent.
//!
//! An [`Action`] is one revertible change to the machine. It is written as a
//! pair of scripts, one per direction: given the responses reported so far,
//! a script names the next [`Request`] or the result of the run. A
//! [`StatefulAction`] pairs an action with its [`ActionState`] and decides
//! whether a script has to run at all.

pub mod base;
pub mod catalog;
pub mod linux;

use vstd::prelude::*;
use crate::system::{
    CommandLine, CommandLineView, CommandOutput, CommandOutputView, OsError, OsErrorView, Request,
    RequestView, Response, ResponseView,
};

verus! {

/// How far an action has come.
#[derive(Clone, Copy, Debug, PartialEq, Eq, Structural)]
pub enum ActionState {
    /// The action ran to the end; only from here can a revert do work.
    Completed,
    /// The action was started and its outcome is not known.
    Progress,
    /// The action has not run, or was reverted.
    Uncompleted,
}

/// The stable name under which a kind of action is recorded.
#[derive(Clone, Copy, Debug)]
pub struct ActionTag(pub &'static str);

impl View for ActionTag {
    type V = Seq<char>;

    open spec fn view(&self) -> Seq<char> {
        self.0@
    }
}

/// A headline and the reasons behind it, for explaining a plan to a person.
#[derive(Debug)]
pub struct ActionDescription {
    pub description: String,
    pub explanation: Vec<String>,
}

/// The view of an [`ActionDescription`].
pub struct ActionDescriptionView {
    pub description: Seq<char>,
    pub explanation: Seq<Seq<char>>,
}

impl View for ActionDescription {
    type V = ActionDescriptionView;

    open spec fn view(&self) -> ActionDescriptionView {
        ActionDescriptionView {
            description: self.description@,
            explanation: self.explanation.deep_view(),
        }
    }
}

impl DeepView for ActionDescription {
    type V = ActionDescriptionView;

    open spec fn deep_view(&self) -> ActionDescriptionView {
        self@
    }
}

impl ActionDescription {
    /// Pairs a headline with its reasons.
    pub fn new(description: String, explanation: Vec<String>) -> (made: Self)
        ensures
            made@ == (ActionDescriptionView {
                description: description@,
                explanation: explanation.deep_view(),
            }),
    {
        ActionDescription { description, explanation }
    }
}

/// Why an action failed, with the operands of the interaction that failed.
#[derive(Debug)]
pub enum ActionErrorKind {
    /// The metadata of a path could not be read.
    GettingMetadata(String, OsError),
    /// A path that had to be free is taken.
    DirExists(String),
    /// A path that had to be a directory is something else.
    PathWasNotDirectory(String),
    /// A directory could not be created.
    CreateDirectory(String, OsError),
    /// The first path could not be renamed to the second.
    Rename(String, String, OsError),
    /// A file could not be written.
    Write(String, OsError),
    /// A file could not be removed.
    Remove(String, OsError),
    /// A command could not be started.
    Command { command: CommandLine, error: OsError },
    /// A command ran and did not exit with code zero.
    CommandOutput { command: CommandLine, output: CommandOutput },
    /// The driver reported a response that does not answer the request.
    UnexpectedResponse,
}

/// The view of an [`ActionErrorKind`].
pub enum ActionErrorKindView {
    GettingMetadata(Seq<char>, OsErrorView),
    DirExists(Seq<char>),
    PathWasNotDirectory(Seq<char>),
    CreateDirectory(Seq<char>, OsErrorView),
    Rename(Seq<char>, Seq<char>, OsErrorView),
    Write(Seq<char>, OsErrorView),
    Remove(Seq<char>, OsErrorView),
    Command { command: CommandLineView, error: OsErrorView },
    CommandOutput { command: CommandLineView, output: CommandOutputView },
    UnexpectedResponse,
}

impl View for ActionErrorKind {
    type V = ActionErrorKindView;

    open spec fn view(&self) -> ActionErrorKindView {
        match self {
            ActionErrorKind::GettingMetadata(path, error) => ActionErrorKindView::GettingMetadata(
                path@,
                error@,
            ),
            ActionErrorKind::DirExists(path) => ActionErrorKindView::DirExists(path@),
            ActionErrorKind::PathWasNotDirectory(path) => ActionErrorKindView::PathWasNotDirectory(
                path@,
            ),
            ActionErrorKind::CreateDirectory(path, error) => ActionErrorKindView::CreateDirectory(
                path@,
                error@,
            ),
            ActionErrorKind::Rename(from, to, error) => ActionErrorKindView::Rename(
                from@,
                to@,
                error@,
            ),
            ActionErrorKind::Write(path, error) => ActionErrorKindView::Write(path@, error@),
            ActionErrorKind::Remove(path, error) => ActionErrorKindView::Remove(path@, error@),
            ActionErrorKind::Command { command, error } => ActionErrorKindView::Command {
                command: command@,
                error: error@,
            },
            ActionErrorKind::CommandOutput { command, output } => {
                ActionErrorKindView::CommandOutput { command: command@, output: output@ }
            },
            ActionErrorKind::UnexpectedResponse => ActionErrorKindView::UnexpectedResponse,
        }
    }
}

impl Clone for ActionErrorKind {
    fn clone(&self) -> (copy: Self)
        ensures
            copy@ == self@,
    {
        match self {
            ActionErrorKind::GettingMetadata(path, error) => ActionErrorKind::GettingMetadata(
                path.clone(),
                error.clone(),
            ),
            ActionErrorKind::DirExists(path) => ActionErrorKind::DirExists(path.clone()),
            ActionErrorKind::PathWasNotDirectory(path) => ActionErrorKind::PathWasNotDirectory(
                path.clone(),
            ),
            ActionErrorKind::CreateDirectory(path, error) => ActionErrorKind::CreateDirectory(
                path.clone(),
                error.clone(),
            ),
            ActionErrorKind::Rename(from, to, error) => ActionErrorKind::Rename(
                from.clone(),
                to.clone(),
                error.clone(),
            ),
            ActionErrorKind::Write(path, error) => ActionErrorKind::Write(
                path.clone(),
                error.clone(),
            ),
            ActionErrorKind::Remove(path, error) => ActionErrorKind::Remove(
                path.clone(),
                error.clone(),
            ),
            ActionErrorKind::Command { command, error } => ActionErrorKind::Command {
                command: command.clone(),
                error: error.clone(),
            },
            ActionErrorKind::CommandOutput { command, output } => ActionErrorKind::CommandOutput {
                command: command.clone(),
                output: output.clone(),
            },
            ActionErrorKind::UnexpectedResponse => ActionErrorKind::UnexpectedResponse,
        }
    }
}

/// An error of one action: which kind of action failed, and why.
#[derive(Debug)]
pub struct ActionError {
    action_tag: ActionTag,
    kind: ActionErrorKind,
}

/// The view of an [`ActionError`].
pub struct ActionErrorView {
    pub action_tag: Seq<char>,
    pub kind: ActionErrorKindView,
}

impl View for ActionError {
    type V = ActionErrorView;

    closed spec fn view(&self) -> ActionErrorView {
        ActionErrorView { action_tag: self.action_tag@, kind: self.kind@ }
    }
}

impl DeepView for ActionError {
    type V = ActionErrorView;

    open spec fn deep_view(&self) -> ActionErrorView {
        self@
    }
}

impl Clone for ActionError {
    fn clone(&self) -> (copy: Self)
        ensures
            copy@ == self@,
    {
        ActionError { action_tag: self.action_tag, kind: self.kind.clone() }
    }
}

impl ActionError {
    /// An error of the action kind `action_tag`.
    pub fn new(action_tag: ActionTag, kind: ActionErrorKind) -> (error: Self)
        ensures
            error@ == (ActionErrorView { action_tag: action_tag@, kind: kind@ }),
    {
        ActionError { action_tag, kind }
    }

    /// Why the action failed.
    pub fn kind(&self) -> (kind: &ActionErrorKind)
        ensures
            kind@ == self@.kind,
    {
        &self.kind
    }

    /// The kind of action that failed.
    pub fn action_tag(&self) -> (tag: &ActionTag)
        ensures
            tag@ == self@.action_tag,
    {
        &self.action_tag
    }
}

/// What a script answers: the next request, or the result of the run.
#[derive(Debug)]
pub enum Step {
    /// The driver is to perform the request and report the response.
    Perform(Request),
    /// The run is over.
    Finish(Result<(), ActionError>),
}

/// The view of a [`Step`].
pub enum StepView {
    /// The driver is to perform the request.
    Perform(RequestView),
    /// The run is over and succeeded.
    Done,
    /// The run is over and failed.
    Failed(ActionErrorView),
}

impl StepView {
    /// The step that ends a run with an error of the action kind `tag`.
    pub open spec fn fail(tag: Seq<char>, kind: ActionErrorKindView) -> StepView {
        StepView::Failed(ActionErrorView { action_tag: tag, kind })
    }
}

impl View for Step {
    type V = StepView;

    open spec fn view(&self) -> StepView {
        match self {
            Step::Perform(request) => StepView::Perform(request@),
            Step::Finish(Ok(_)) => StepView::Done,
            Step::Finish(Err(error)) => StepView::Failed(error@),
        }
    }
}

/// One revertible, self-describing change to the machine.
///
/// The two scripts are functions of the action and of the responses alone,
/// so a run can be repeated, resumed and examined without touching anything.
pub trait Action: Sized {
    /// The tag of this kind of action.
    spec fn tag(&self) -> Seq<char>;

    /// The one-line synopsis of the action.
    spec fn synopsis(&self) -> Seq<char>;

    /// What executing the action will do, as headlines with reasons.
    spec fn execute_explanation(&self) -> Seq<ActionDescriptionView>;

    /// What reverting the action will do, as headlines with reasons.
    spec fn revert_explanation(&self) -> Seq<ActionDescriptionView>;

    /// The forward script: the step that follows `responses`.
    spec fn execute_script(&self, responses: Seq<ResponseView>) -> StepView;

    /// The reverse script: the step that follows `responses`.
    spec fn revert_script(&self, responses: Seq<ResponseView>) -> StepView;

    /// The stable tag of this kind of action.
    fn action_tag(&self) -> (tag: ActionTag)
        ensures
            tag@ == self.tag(),
    ;

    /// A short synopsis for people and logs.
    fn tracing_synopsis(&self) -> (synopsis: String)
        ensures
            synopsis@ == self.synopsis(),
    ;

    /// Explains what `execute` will do; the action need not have run.
    fn execute_description(&self) -> (description: Vec<ActionDescription>)
        ensures
            description.deep_view() == self.execute_explanation(),
    ;

    /// Explains what `revert` will do; the action need not have run.
    fn revert_description(&self) -> (description: Vec<ActionDescription>)
        ensures
            description.deep_view() == self.revert_explanation(),
    ;

    /// The next step of the change, after `responses`.
    fn execute(&self, responses: &Vec<Response>) -> (step: Step)
        ensures
            step@ == self.execute_script(responses.deep_view()),
    ;

    /// The next step of the inverse change, after `responses`.
    fn revert(&self, responses: &Vec<Response>) -> (step: Step)
        ensures
            step@ == self.revert_script(responses.deep_view()),
    ;
}

/// Whether `responses` are those of a forward run of `action` that came to
/// its end in success: every response answers a request of the forward
/// script, and after the last the script is done.
pub open spec fn succeeds_forward<A: Action>(action: A, responses: Seq<ResponseView>) -> bool {
    &&& forall|i: int|
        0 <= i < responses.len() ==> #[trigger] action.execute_script(responses.take(i))
            is Perform
    &&& action.execute_script(responses) == StepView::Done
}

/// Whether `responses` are those of a reverse run of `action` that came to
/// its end in success.
pub open spec fn succeeds_backward<A: Action>(action: A, responses: Seq<ResponseView>) -> bool {
    &&& forall|i: int|
        0 <= i < responses.len() ==> #[trigger] action.revert_script(responses.take(i))
            is Perform
    &&& action.revert_script(responses) == StepView::Done
}

/// The requests that the forward script of `action` makes when it is given
/// `responses` one by one.
pub open spec fn execute_requests<A: Action>(action: A, responses: Seq<ResponseView>) -> Seq<
    RequestView,
> {
    Seq::new(responses.len(), |i: int| action.execute_script(responses.take(i))->Perform_0)
}

/// The requests that the reverse script of `action` makes when it is given
/// `responses` one by one.
pub open spec fn revert_requests<A: Action>(action: A, responses: Seq<ResponseView>) -> Seq<
    RequestView,
> {
    Seq::new(responses.len(), |i: int| action.revert_script(responses.take(i))->Perform_0)
}

/// Whether two actions run alike: their scripts agree on every series of
/// responses.
pub open spec fn same_scripts<A: Action>(left: A, right: A) -> bool {
    &&& forall|responses: Seq<ResponseView>| #[trigger]
        left.execute_script(responses) == right.execute_script(responses)
    &&& forall|responses: Seq<ResponseView>| #[trigger]
        left.revert_script(responses) == right.revert_script(responses)
}

/// The step that ends a run with an error of the action kind `tag`.
pub fn fail(tag: ActionTag, kind: ActionErrorKind) -> (step: Step)
    ensures
        step@ == StepView::fail(tag@, kind@),
{
    Step::Finish(Err(ActionError::new(tag, kind)))
}

/// An action together with its state: the unit a plan is made of.
#[derive(Debug)]
pub struct StatefulAction<A> {
    pub action: A,
    pub state: ActionState,
}

impl<A: Action> StatefulAction<A> {
    /// An action that has yet to run.
    pub fn uncompleted(action: A) -> (made: Self)
        ensures
            made.action == action,
            made.state == ActionState::Uncompleted,
    {
        StatefulAction { action, state: ActionState::Uncompleted }
    }

    /// An action whose effect was found in place already.
    pub fn completed(action: A) -> (made: Self)
        ensures
            made.action == action,
            made.state == ActionState::Completed,
    {
        StatefulAction { action, state: ActionState::Completed }
    }

    /// The same action in another state.
    pub open spec fn in_state(self, state: ActionState) -> Self {
        StatefulAction { action: self.action, state }
    }

    /// Whether a revert does work from this state, given how many
    /// responses were reported: a revert starts only from `Completed`, and
    /// one that is under way goes on.
    pub open spec fn reverts(self, reported: nat) -> bool {
        self.state == ActionState::Completed || (self.state == ActionState::Progress && reported
            > 0)
    }

    /// What one step of executing leaves and answers.
    ///
    /// A completed action is left alone and the step is success. Any other
    /// action follows its forward script; it is `Completed` when the script
    /// ends in success and `Progress` otherwise.
    pub open spec fn executed(self, responses: Seq<ResponseView>) -> (Self, StepView) {
        if self.state == ActionState::Completed {
            (self, StepView::Done)
        } else {
            let step = self.action.execute_script(responses);
            if step == StepView::Done {
                (self.in_state(ActionState::Completed), step)
            } else {
                (self.in_state(ActionState::Progress), step)
            }
        }
    }

    /// What one step of reverting leaves and answers.
    ///
    /// An action from which no revert does work is left alone and the step
    /// is success. Any other action follows its reverse script; it is
    /// `Uncompleted` when the script ends in success and `Progress`
    /// otherwise.
    pub open spec fn reverted(self, responses: Seq<ResponseView>) -> (Self, StepView) {
        if !self.reverts(responses.len()) {
            (self, StepView::Done)
        } else {
            let step = self.action.revert_script(responses);
            if step == StepView::Done {
                (self.in_state(ActionState::Uncompleted), step)
            } else {
                (self.in_state(ActionState::Progress), step)
            }
        }
    }

    /// One step of executing the action: [`Self::executed`].
    ///
    /// Executing a completed action asks nothing of the driver, changes
    /// nothing and succeeds, whatever the responses.
    pub fn try_execute(&mut self, responses: &Vec<Response>) -> (step: Step)
        ensures
            (*final(self), step@) == old(self).executed(responses.deep_view()),
            old(self).state == ActionState::Completed ==> *final(self) == *old(self) && step@
                == StepView::Done,
    {
        match self.state {
            ActionState::Completed => Step::Finish(Ok(())),
            _ => {
                let step = self.action.execute(responses);
                match &step {
                    Step::Finish(Ok(())) => {
                        self.state = ActionState::Completed;
                    },
                    _ => {
                        self.state = ActionState::Progress;
                    },
                }
                step
            },
        }
    }

    /// One step of reverting the action: [`Self::reverted`].
    ///
    /// The first call of a run comes without responses; it starts the
    /// reverse script only where the action is `Completed`. Reverting an
    /// uncompleted action asks nothing of the driver, changes nothing and
    /// succeeds, whatever the responses.
    pub fn try_revert(&mut self, responses: &Vec<Response>) -> (step: Step)
        ensures
            (*final(self), step@) == old(self).reverted(responses.deep_view()),
            old(self).state == ActionState::Uncompleted ==> *final(self) == *old(self) && step@
                == StepView::Done,
    {
        let under_way = match self.state {
            ActionState::Completed => true,
            ActionState::Progress => responses.len() > 0,
            ActionState::Uncompleted => false,
        };
        if under_way {
            let step = self.action.revert(responses);
            match &step {
                Step::Finish(Ok(())) => {
                    self.state = ActionState::Uncompleted;
                },
                _ => {
                    self.state = ActionState::Progress;
                },
            }
            step
        } else {
            Step::Finish(Ok(()))
        }
    }
}

} // verus!
