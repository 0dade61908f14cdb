//! Build users and their group, declared to systemd-sysusers.

use vstd::prelude::*;
use vstd::string::StringExecFns;
use crate::action::{
    execute_requests, fail, revert_requests, same_scripts, succeeds_backward, succeeds_forward,
    Action, ActionDescription, ActionDescriptionView, ActionError, ActionErrorKind,
    ActionErrorKindView, ActionState, ActionTag, StatefulAction, Step, StepView,
};
use crate::command::{command_result, execute_command};
use crate::settings::CommonSettings;
use crate::system::{CommandLine, CommandLineView, Request, RequestView, Response, ResponseView};
use crate::text::{decimal, decimal_text};

verus! {

/// The sysusers.d file that declares the build users and their group.
pub const SYSUSERS_PATH: &'static str = "/usr/lib/sysusers.d/nix.conf";

/// Why the build users are needed.
pub const BUILD_USERS_REASON: &'static str = "The Nix daemon requires system users \
(and a group they share) which it can act as in order to build";

/// Why the build users have to be there before the installation goes on.
pub const BUILD_USERS_NEED: &'static str =
    "Build users and group are required for the rest of the installation to succeed";

/// Create the build group and the build users by declaring them in a
/// sysusers.d file and running `systemd-sysusers`.
#[derive(Debug)]
pub struct CreateUsersAndGroupsSysUsers {
    pub nix_build_group_name: String,
    pub nix_build_group_id: u32,
    pub nix_build_user_count: u32,
    pub nix_build_user_prefix: String,
    pub nix_build_user_id_base: u32,
}

/// The two sysusers.d lines of build user number `i`, counted from one: the
/// user itself, with the id `id_base + i - 1`, and its membership in the
/// group, without which the daemon finds the group empty.
pub open spec fn user_lines(
    prefix: Seq<char>,
    id_base: nat,
    group_name: Seq<char>,
    group_id: nat,
    i: nat,
) -> Seq<char> {
    "u "@ + prefix + decimal_text(i) + " "@ + decimal_text((id_base + i - 1) as nat) + ":"@
        + decimal_text(group_id) + " \"Nix build user "@ + decimal_text(i) + "\"\nm "@ + prefix
        + decimal_text(i) + " "@ + group_name + "\n"@
}

/// The lines of the build users `1` to `count`, in order.
pub open spec fn users_text(
    prefix: Seq<char>,
    id_base: nat,
    group_name: Seq<char>,
    group_id: nat,
    count: nat,
) -> Seq<char>
    decreases count,
{
    if count == 0 {
        Seq::<char>::empty()
    } else {
        users_text(prefix, id_base, group_name, group_id, (count - 1) as nat) + user_lines(
            prefix,
            id_base,
            group_name,
            group_id,
            count,
        )
    }
}

/// The tag of [`CreateUsersAndGroupsSysUsers`].
pub open spec fn sysusers_tag() -> Seq<char> {
    "create_users_and_group_sysusers"@
}

/// The tag of [`CreateUsersAndGroupsSysUsers`].
fn tag() -> (tag: ActionTag)
    ensures
        tag@ == sysusers_tag(),
{
    ActionTag("create_users_and_group_sysusers")
}

/// The command line `systemd-sysusers` with the given arguments.
pub open spec fn sysusers_command(args: Seq<Seq<char>>) -> CommandLineView {
    CommandLineView {
        program: "systemd-sysusers"@,
        args,
        process_group: None,
        stdin_null: false,
    }
}

/// What follows a change to the sysusers.d file: once the change is
/// reported done, `command` is run and judged.
pub open spec fn after_change(
    tag: Seq<char>,
    command: CommandLineView,
    responses: Seq<ResponseView>,
) -> StepView
    recommends
        responses.len() >= 1,
{
    if responses.len() == 1 {
        StepView::Perform(RequestView::Run { command })
    } else {
        match command_result(command, responses[1]) {
            Ok(_) => StepView::Done,
            Err(kind) => StepView::fail(tag, kind),
        }
    }
}

impl CreateUsersAndGroupsSysUsers {
    /// The whole sysusers.d file: a comment, the group, then the users.
    pub open spec fn sysusers_text(&self) -> Seq<char> {
        "# Nix build group and users.\ng "@ + self.nix_build_group_name@ + " "@ + decimal_text(
            self.nix_build_group_id as nat,
        ) + "\n"@ + users_text(
            self.nix_build_user_prefix@,
            self.nix_build_user_id_base as nat,
            self.nix_build_group_name@,
            self.nix_build_group_id as nat,
            self.nix_build_user_count as nat,
        )
    }

    /// Plans the action from the settings. Nothing on the machine is looked
    /// at, so planning cannot fail and the action has yet to run.
    pub fn plan(settings: &CommonSettings) -> (planned: Result<StatefulAction<Self>, ActionError>)
        ensures
            planned matches Ok(stateful) && stateful.state == ActionState::Uncompleted
                && stateful.action.nix_build_group_name@ == settings.nix_build_group_name@
                && stateful.action.nix_build_group_id == settings.nix_build_group_id
                && stateful.action.nix_build_user_count == settings.nix_build_user_count
                && stateful.action.nix_build_user_prefix@ == settings.nix_build_user_prefix@
                && stateful.action.nix_build_user_id_base == settings.nix_build_user_id_base,
    {
        Ok(
            StatefulAction::uncompleted(
                CreateUsersAndGroupsSysUsers {
                    nix_build_group_name: settings.nix_build_group_name.clone(),
                    nix_build_group_id: settings.nix_build_group_id,
                    nix_build_user_count: settings.nix_build_user_count,
                    nix_build_user_prefix: settings.nix_build_user_prefix.clone(),
                    nix_build_user_id_base: settings.nix_build_user_id_base,
                },
            ),
        )
    }

    /// Writes out the sysusers.d file.
    ///
    /// User ids are computed without wrapping: the last one may lie above
    /// what a 32-bit id can hold, and is then written as it is.
    pub fn sysusers_content(&self) -> (content: String)
        ensures
            content@ == self.sysusers_text(),
    {
        let mut content = String::from_str("# Nix build group and users.\ng ");
        content.append(self.nix_build_group_name.as_str());
        content.append(" ");
        content.append(decimal(self.nix_build_group_id as u64).as_str());
        content.append("\n");
        let ghost head = content@;
        let mut i: u64 = 0;
        while i < self.nix_build_user_count as u64
            invariant
                i <= self.nix_build_user_count,
                content@ == head + users_text(
                    self.nix_build_user_prefix@,
                    self.nix_build_user_id_base as nat,
                    self.nix_build_group_name@,
                    self.nix_build_group_id as nat,
                    i as nat,
                ),
            decreases self.nix_build_user_count - i,
        {
            let ghost before = content@;
            i += 1;
            let number = decimal(i);
            let uid: u64 = self.nix_build_user_id_base as u64 + i - 1;
            // A plain `u` line is used, not `u!`, which older versions of
            // systemd do not know.
            content.append("u ");
            content.append(self.nix_build_user_prefix.as_str());
            content.append(number.as_str());
            content.append(" ");
            content.append(decimal(uid).as_str());
            content.append(":");
            content.append(decimal(self.nix_build_group_id as u64).as_str());
            content.append(" \"Nix build user ");
            content.append(number.as_str());
            content.append("\"\nm ");
            content.append(self.nix_build_user_prefix.as_str());
            content.append(number.as_str());
            content.append(" ");
            content.append(self.nix_build_group_name.as_str());
            content.append("\n");
            assert(content@ =~= before + user_lines(
                self.nix_build_user_prefix@,
                self.nix_build_user_id_base as nat,
                self.nix_build_group_name@,
                self.nix_build_group_id as nat,
                i as nat,
            ));
            assert(content@ =~= head + users_text(
                self.nix_build_user_prefix@,
                self.nix_build_user_id_base as nat,
                self.nix_build_group_name@,
                self.nix_build_group_id as nat,
                i as nat,
            ));
        }
        content
    }

    /// The command `systemd-sysusers`, with the sysusers.d file as its
    /// argument where `with_file` is set.
    fn command(with_file: bool) -> (command: CommandLine)
        ensures
            command@ == sysusers_command(
                if with_file {
                    seq![SYSUSERS_PATH@]
                } else {
                    Seq::<Seq<char>>::empty()
                },
            ),
    {
        let mut args: Vec<String> = Vec::new();
        if with_file {
            args.push(String::from_str(SYSUSERS_PATH));
        }
        let command = CommandLine {
            program: String::from_str("systemd-sysusers"),
            args,
            process_group: None,
            stdin_null: false,
        };
        assert(command@.args =~= if with_file {
            seq![SYSUSERS_PATH@]
        } else {
            Seq::<Seq<char>>::empty()
        });
        command
    }

    /// Follows [`after_change`] for the command with or without the file.
    fn run_sysusers(with_file: bool, responses: &Vec<Response>) -> (step: Step)
        requires
            responses.len() >= 1,
        ensures
            step@ == after_change(
                sysusers_tag(),
                sysusers_command(
                    if with_file {
                        seq![SYSUSERS_PATH@]
                    } else {
                        Seq::<Seq<char>>::empty()
                    },
                ),
                responses.deep_view(),
            ),
    {
        let command = Self::command(with_file);
        if responses.len() == 1 {
            Step::Perform(Request::Run { command })
        } else {
            match execute_command(command, &responses[1]) {
                Ok(_) => Step::Finish(Ok(())),
                Err(kind) => fail(tag(), kind),
            }
        }
    }
}

/// A list of one reason.
fn one_reason(reason: &str) -> (reasons: Vec<String>)
    ensures
        reasons.deep_view() == seq![reason@],
{
    let mut reasons: Vec<String> = Vec::new();
    reasons.push(String::from_str(reason));
    assert(reasons.deep_view() =~= seq![reason@]);
    reasons
}

impl Action for CreateUsersAndGroupsSysUsers {
    open spec fn tag(&self) -> Seq<char> {
        sysusers_tag()
    }

    open spec fn synopsis(&self) -> Seq<char> {
        if self.nix_build_user_count == 0 {
            "Create "@ + SYSUSERS_PATH@ + " with build group "@ + self.nix_build_group_name@
                + " (GID "@ + decimal_text(self.nix_build_group_id as nat) + ")"@
        } else {
            "Create "@ + SYSUSERS_PATH@ + " with build users "@ + self.nix_build_user_prefix@
                + "* (UID "@ + decimal_text((self.nix_build_user_id_base + 1) as nat) + "-"@
                + decimal_text((self.nix_build_user_id_base + self.nix_build_user_count) as nat)
                + ") and group "@ + self.nix_build_group_name@ + " (GID "@ + decimal_text(
                self.nix_build_group_id as nat,
            ) + ")"@
        }
    }

    open spec fn execute_explanation(&self) -> Seq<ActionDescriptionView> {
        seq![
            ActionDescriptionView {
                description: self.synopsis(),
                explanation: seq![BUILD_USERS_REASON@],
            },
            ActionDescriptionView {
                description: "Run `systemd-sysusers "@ + SYSUSERS_PATH@
                    + "` to create the users and group"@,
                explanation: seq![BUILD_USERS_NEED@],
            },
        ]
    }

    open spec fn revert_explanation(&self) -> Seq<ActionDescriptionView> {
        seq![
            ActionDescriptionView {
                description: "Remove "@ + SYSUSERS_PATH@ + " containing the build users and group"@,
                explanation: seq![BUILD_USERS_REASON@],
            },
            ActionDescriptionView {
                description: "Run `systemd-sysusers "@ + SYSUSERS_PATH@
                    + "` to remove the users and group"@,
                explanation: Seq::<Seq<char>>::empty(),
            },
        ]
    }

    /// Write the sysusers.d file, then let `systemd-sysusers` read it.
    open spec fn execute_script(&self, responses: Seq<ResponseView>) -> StepView {
        if responses.len() == 0 {
            StepView::Perform(
                RequestView::Write { path: SYSUSERS_PATH@, contents: self.sysusers_text() },
            )
        } else {
            match responses[0] {
                ResponseView::Done(Ok(())) => after_change(
                    sysusers_tag(),
                    sysusers_command(seq![SYSUSERS_PATH@]),
                    responses,
                ),
                ResponseView::Done(Err(error)) => StepView::fail(
                    sysusers_tag(),
                    ActionErrorKindView::Write(SYSUSERS_PATH@, error),
                ),
                _ => StepView::fail(sysusers_tag(), ActionErrorKindView::UnexpectedResponse),
            }
        }
    }

    /// Remove the sysusers.d file, then let `systemd-sysusers` run again.
    open spec fn revert_script(&self, responses: Seq<ResponseView>) -> StepView {
        if responses.len() == 0 {
            StepView::Perform(RequestView::RemoveFile { path: SYSUSERS_PATH@ })
        } else {
            match responses[0] {
                ResponseView::Done(Ok(())) => after_change(
                    sysusers_tag(),
                    sysusers_command(Seq::<Seq<char>>::empty()),
                    responses,
                ),
                ResponseView::Done(Err(error)) => StepView::fail(
                    sysusers_tag(),
                    ActionErrorKindView::Remove(SYSUSERS_PATH@, error),
                ),
                _ => StepView::fail(sysusers_tag(), ActionErrorKindView::UnexpectedResponse),
            }
        }
    }

    fn action_tag(&self) -> (tag: ActionTag) {
        ActionTag("create_users_and_group_sysusers")
    }

    fn tracing_synopsis(&self) -> (synopsis: String) {
        let mut synopsis = String::from_str("Create ");
        synopsis.append(SYSUSERS_PATH);
        if self.nix_build_user_count == 0 {
            synopsis.append(" with build group ");
        } else {
            let first: u64 = self.nix_build_user_id_base as u64 + 1;
            let last: u64 = self.nix_build_user_id_base as u64 + self.nix_build_user_count as u64;
            synopsis.append(" with build users ");
            synopsis.append(self.nix_build_user_prefix.as_str());
            synopsis.append("* (UID ");
            synopsis.append(decimal(first).as_str());
            synopsis.append("-");
            synopsis.append(decimal(last).as_str());
            synopsis.append(") and group ");
        }
        synopsis.append(self.nix_build_group_name.as_str());
        synopsis.append(" (GID ");
        synopsis.append(decimal(self.nix_build_group_id as u64).as_str());
        synopsis.append(")");
        synopsis
    }

    fn execute_description(&self) -> (description: Vec<ActionDescription>) {
        let mut run = String::from_str("Run `systemd-sysusers ");
        run.append(SYSUSERS_PATH);
        run.append("` to create the users and group");
        let mut description: Vec<ActionDescription> = Vec::new();
        description.push(
            ActionDescription::new(self.tracing_synopsis(), one_reason(BUILD_USERS_REASON)),
        );
        description.push(
            ActionDescription::new(run, one_reason(BUILD_USERS_NEED)),
        );
        assert(description.deep_view() =~= self.execute_explanation());
        description
    }

    fn revert_description(&self) -> (description: Vec<ActionDescription>) {
        let mut remove = String::from_str("Remove ");
        remove.append(SYSUSERS_PATH);
        remove.append(" containing the build users and group");
        let mut run = String::from_str("Run `systemd-sysusers ");
        run.append(SYSUSERS_PATH);
        run.append("` to remove the users and group");
        let mut description: Vec<ActionDescription> = Vec::new();
        description.push(ActionDescription::new(remove, one_reason(BUILD_USERS_REASON)));
        let none: Vec<String> = Vec::new();
        assert(none.deep_view() =~= Seq::<Seq<char>>::empty());
        description.push(ActionDescription::new(run, none));
        assert(description.deep_view() =~= self.revert_explanation());
        description
    }

    fn execute(&self, responses: &Vec<Response>) -> (step: Step) {
        if responses.len() == 0 {
            return Step::Perform(
                Request::Write {
                    path: String::from_str(SYSUSERS_PATH),
                    contents: self.sysusers_content(),
                },
            );
        }
        match &responses[0] {
            Response::Done(Ok(())) => Self::run_sysusers(true, responses),
            Response::Done(Err(error)) => fail(tag(), 
                ActionErrorKind::Write(String::from_str(SYSUSERS_PATH), error.clone()),
            ),
            _ => fail(tag(), ActionErrorKind::UnexpectedResponse),
        }
    }

    fn revert(&self, responses: &Vec<Response>) -> (step: Step) {
        if responses.len() == 0 {
            return Step::Perform(Request::RemoveFile { path: String::from_str(SYSUSERS_PATH) });
        }
        match &responses[0] {
            Response::Done(Ok(())) => Self::run_sysusers(false, responses),
            Response::Done(Err(error)) => fail(tag(), 
                ActionErrorKind::Remove(String::from_str(SYSUSERS_PATH), error.clone()),
            ),
            _ => fail(tag(), ActionErrorKind::UnexpectedResponse),
        }
    }
}

/// What creating the build users asks of the machine when it succeeds, and
/// what its revert asks.
///
/// A forward run that ends in success wrote the sysusers.d file and ran
/// `systemd-sysusers` on it, and made no other request. A reverse run that
/// ends in success removed that file and ran `systemd-sysusers` without
/// it, and made no other request.
pub proof fn lemma_revert_removes_the_file(
    action: CreateUsersAndGroupsSysUsers,
    forward: Seq<ResponseView>,
    backward: Seq<ResponseView>,
)
    ensures
        succeeds_forward(action, forward) ==> execute_requests(action, forward) == seq![
            RequestView::Write { path: SYSUSERS_PATH@, contents: action.sysusers_text() },
            RequestView::Run { command: sysusers_command(seq![SYSUSERS_PATH@]) },
        ],
        succeeds_backward(action, backward) ==> revert_requests(action, backward) == seq![
            RequestView::RemoveFile { path: SYSUSERS_PATH@ },
            RequestView::Run { command: sysusers_command(Seq::<Seq<char>>::empty()) },
        ],
{
    if succeeds_forward(action, forward) {
        assert(forward.len() >= 2 && action.execute_script(forward.take(0)) is Perform
            && action.execute_script(forward.take(1)) is Perform);
        if forward.len() > 2 {
            assert(action.execute_script(forward.take(2)) is Perform);
        }
        assert(execute_requests(action, forward) =~= seq![
            RequestView::Write { path: SYSUSERS_PATH@, contents: action.sysusers_text() },
            RequestView::Run { command: sysusers_command(seq![SYSUSERS_PATH@]) },
        ]);
    }
    if succeeds_backward(action, backward) {
        assert(backward.len() >= 2 && action.revert_script(backward.take(0)) is Perform
            && action.revert_script(backward.take(1)) is Perform);
        if backward.len() > 2 {
            assert(action.revert_script(backward.take(2)) is Perform);
        }
        assert(revert_requests(action, backward) =~= seq![
            RequestView::RemoveFile { path: SYSUSERS_PATH@ },
            RequestView::Run { command: sysusers_command(Seq::<Seq<char>>::empty()) },
        ]);
    }
}

/// The action is run by its five settings alone: two actions with the same
/// names, as text, and the same numbers have the same scripts.
pub proof fn lemma_users_run_by_their_settings(
    left: CreateUsersAndGroupsSysUsers,
    right: CreateUsersAndGroupsSysUsers,
)
    requires
        left.nix_build_group_name@ == right.nix_build_group_name@,
        left.nix_build_group_id == right.nix_build_group_id,
        left.nix_build_user_count == right.nix_build_user_count,
        left.nix_build_user_prefix@ == right.nix_build_user_prefix@,
        left.nix_build_user_id_base == right.nix_build_user_id_base,
    ensures
        same_scripts(left, right),
{
}

} // verus!
