//! The actions of this crate as one type, so that a plan can hold any of
//! them.

use vstd::prelude::*;
use crate::action::base::MoveDirectory;
use crate::action::linux::{CreateUsersAndGroupsSysUsers, EnableSystemdUnit};
use crate::action::{
    same_scripts, Action, ActionDescription, ActionDescriptionView, ActionTag, Step, StepView,
};
use crate::system::{Response, ResponseView};

verus! {

/// Any one of the actions of this crate. It is described and run as the
/// action it holds.
#[derive(Debug)]
pub enum CatalogAction {
    MoveDirectory(MoveDirectory),
    CreateUsersAndGroupsSysUsers(CreateUsersAndGroupsSysUsers),
    EnableSystemdUnit(EnableSystemdUnit),
}

impl Action for CatalogAction {
    open spec fn tag(&self) -> Seq<char> {
        match self {
            CatalogAction::MoveDirectory(action) => action.tag(),
            CatalogAction::CreateUsersAndGroupsSysUsers(action) => action.tag(),
            CatalogAction::EnableSystemdUnit(action) => action.tag(),
        }
    }

    open spec fn synopsis(&self) -> Seq<char> {
        match self {
            CatalogAction::MoveDirectory(action) => action.synopsis(),
            CatalogAction::CreateUsersAndGroupsSysUsers(action) => action.synopsis(),
            CatalogAction::EnableSystemdUnit(action) => action.synopsis(),
        }
    }

    open spec fn execute_explanation(&self) -> Seq<ActionDescriptionView> {
        match self {
            CatalogAction::MoveDirectory(action) => action.execute_explanation(),
            CatalogAction::CreateUsersAndGroupsSysUsers(action) => action.execute_explanation(),
            CatalogAction::EnableSystemdUnit(action) => action.execute_explanation(),
        }
    }

    open spec fn revert_explanation(&self) -> Seq<ActionDescriptionView> {
        match self {
            CatalogAction::MoveDirectory(action) => action.revert_explanation(),
            CatalogAction::CreateUsersAndGroupsSysUsers(action) => action.revert_explanation(),
            CatalogAction::EnableSystemdUnit(action) => action.revert_explanation(),
        }
    }

    open spec fn execute_script(&self, responses: Seq<ResponseView>) -> StepView {
        match self {
            CatalogAction::MoveDirectory(action) => action.execute_script(responses),
            CatalogAction::CreateUsersAndGroupsSysUsers(action) => action.execute_script(
                responses,
            ),
            CatalogAction::EnableSystemdUnit(action) => action.execute_script(responses),
        }
    }

    open spec fn revert_script(&self, responses: Seq<ResponseView>) -> StepView {
        match self {
            CatalogAction::MoveDirectory(action) => action.revert_script(responses),
            CatalogAction::CreateUsersAndGroupsSysUsers(action) => action.revert_script(responses),
            CatalogAction::EnableSystemdUnit(action) => action.revert_script(responses),
        }
    }

    fn action_tag(&self) -> (tag: ActionTag) {
        match self {
            CatalogAction::MoveDirectory(action) => action.action_tag(),
            CatalogAction::CreateUsersAndGroupsSysUsers(action) => action.action_tag(),
            CatalogAction::EnableSystemdUnit(action) => action.action_tag(),
        }
    }

    fn tracing_synopsis(&self) -> (synopsis: String) {
        match self {
            CatalogAction::MoveDirectory(action) => action.tracing_synopsis(),
            CatalogAction::CreateUsersAndGroupsSysUsers(action) => action.tracing_synopsis(),
            CatalogAction::EnableSystemdUnit(action) => action.tracing_synopsis(),
        }
    }

    fn execute_description(&self) -> (description: Vec<ActionDescription>) {
        match self {
            CatalogAction::MoveDirectory(action) => action.execute_description(),
            CatalogAction::CreateUsersAndGroupsSysUsers(action) => action.execute_description(),
            CatalogAction::EnableSystemdUnit(action) => action.execute_description(),
        }
    }

    fn revert_description(&self) -> (description: Vec<ActionDescription>) {
        match self {
            CatalogAction::MoveDirectory(action) => action.revert_description(),
            CatalogAction::CreateUsersAndGroupsSysUsers(action) => action.revert_description(),
            CatalogAction::EnableSystemdUnit(action) => action.revert_description(),
        }
    }

    fn execute(&self, responses: &Vec<Response>) -> (step: Step) {
        match self {
            CatalogAction::MoveDirectory(action) => action.execute(responses),
            CatalogAction::CreateUsersAndGroupsSysUsers(action) => action.execute(responses),
            CatalogAction::EnableSystemdUnit(action) => action.execute(responses),
        }
    }

    fn revert(&self, responses: &Vec<Response>) -> (step: Step) {
        match self {
            CatalogAction::MoveDirectory(action) => action.revert(responses),
            CatalogAction::CreateUsersAndGroupsSysUsers(action) => action.revert(responses),
            CatalogAction::EnableSystemdUnit(action) => action.revert(responses),
        }
    }
}

/// Two actions of the catalog that hold actions with the same scripts have
/// the same scripts.
pub proof fn lemma_catalog_runs_as_its_action(left: CatalogAction, right: CatalogAction)
    requires
        match (left, right) {
            (CatalogAction::MoveDirectory(left), CatalogAction::MoveDirectory(right)) => {
                same_scripts(left, right)
            },
            (
                CatalogAction::CreateUsersAndGroupsSysUsers(left),
                CatalogAction::CreateUsersAndGroupsSysUsers(right),
            ) => same_scripts(left, right),
            (CatalogAction::EnableSystemdUnit(left), CatalogAction::EnableSystemdUnit(right)) => {
                same_scripts(left, right)
            },
            _ => false,
        },
    ensures
        same_scripts(left, right),
{
    match (left, right) {
        (CatalogAction::MoveDirectory(a), CatalogAction::MoveDirectory(b)) => {
            assert forall|responses: Seq<ResponseView>| #[trigger]
                left.execute_script(responses) == right.execute_script(responses) by {
                assert(a.execute_script(responses) == b.execute_script(responses));
            }
            assert forall|responses: Seq<ResponseView>| #[trigger]
                left.revert_script(responses) == right.revert_script(responses) by {
                assert(a.revert_script(responses) == b.revert_script(responses));
            }
        },
        (
            CatalogAction::CreateUsersAndGroupsSysUsers(a),
            CatalogAction::CreateUsersAndGroupsSysUsers(b),
        ) => {
            assert forall|responses: Seq<ResponseView>| #[trigger]
                left.execute_script(responses) == right.execute_script(responses) by {
                assert(a.execute_script(responses) == b.execute_script(responses));
            }
            assert forall|responses: Seq<ResponseView>| #[trigger]
                left.revert_script(responses) == right.revert_script(responses) by {
                assert(a.revert_script(responses) == b.revert_script(responses));
            }
        },
        (CatalogAction::EnableSystemdUnit(a), CatalogAction::EnableSystemdUnit(b)) => {
            assert forall|responses: Seq<ResponseView>| #[trigger]
                left.execute_script(responses) == right.execute_script(responses) by {
                assert(a.execute_script(responses) == b.execute_script(responses));
            }
            assert forall|responses: Seq<ResponseView>| #[trigger]
                left.revert_script(responses) == right.revert_script(responses) by {
                assert(a.revert_script(responses) == b.revert_script(responses));
            }
        },
        _ => {},
    }
}

} // verus!
