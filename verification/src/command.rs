//! Judging how an external command ended.

use vstd::prelude::*;
use crate::action::{ActionErrorKind, ActionErrorKindView};
use crate::system::{
    CommandLine, CommandLineView, CommandOutput, CommandOutputView, Response, ResponseView,
};

verus! {

/// What the response to running `command` amounts to: its output where it
/// exited with code zero, and an error that carries the command line where
/// it could not be started or exited otherwise.
pub open spec fn command_result(command: CommandLineView, response: ResponseView) -> Result<
    CommandOutputView,
    ActionErrorKindView,
> {
    match response {
        ResponseView::Ran(Ok(output)) => if output.success() {
            Ok(output)
        } else {
            Err(ActionErrorKindView::CommandOutput { command, output })
        },
        ResponseView::Ran(Err(error)) => Err(ActionErrorKindView::Command { command, error }),
        _ => Err(ActionErrorKindView::UnexpectedResponse),
    }
}

/// Judges the response to running `command`.
pub fn execute_command(command: CommandLine, response: &Response) -> (result: Result<
    CommandOutput,
    ActionErrorKind,
>)
    ensures
        match result {
            Ok(output) => command_result(command@, response@) == Ok::<
                CommandOutputView,
                ActionErrorKindView,
            >(output@),
            Err(kind) => command_result(command@, response@) == Err::<
                CommandOutputView,
                ActionErrorKindView,
            >(kind@),
        },
{
    match response {
        Response::Ran(Ok(output)) => {
            if output.success() {
                Ok(output.clone())
            } else {
                Err(ActionErrorKind::CommandOutput { command, output: output.clone() })
            }
        },
        Response::Ran(Err(error)) => Err(
            ActionErrorKind::Command { command, error: error.clone() },
        ),
        _ => Err(ActionErrorKind::UnexpectedResponse),
    }
}

} // verus!
