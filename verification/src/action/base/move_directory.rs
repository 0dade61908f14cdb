//! Moving a directory, and moving it back.

use vstd::prelude::*;
use vstd::string::StringExecFns;
use crate::action::{
    execute_requests, fail, revert_requests, same_scripts, succeeds_backward, succeeds_forward,
    Action, ActionDescription, ActionDescriptionView, ActionError, ActionErrorKind,
    ActionErrorKindView, ActionErrorView, ActionState, ActionTag, StatefulAction, Step, StepView,
};
use crate::paths::{parent_of, parent_path};
use crate::system::{Request, RequestView, Response, ResponseView};
use crate::tree::{performed, performed_all, Tree};

verus! {

/// Move a directory from one location to another.
///
/// The directory `src` is renamed to `dest`, which must not exist. On
/// revert it is renamed back.
#[derive(Debug)]
pub struct MoveDirectory {
    pub src: String,
    pub dest: String,
}

/// The tag of [`MoveDirectory`].
pub open spec fn move_directory_tag() -> Seq<char> {
    "move_directory"@
}

/// The step that reports a response which does not answer the request.
pub open spec fn unexpected() -> StepView {
    StepView::fail(move_directory_tag(), ActionErrorKindView::UnexpectedResponse)
}

/// Checking that `src` can be moved to `dest`: the metadata of `src` must
/// be readable, `dest` must not exist, and `src` must be a directory. The
/// errors are looked for in this order. The step to take is `Some` while
/// the two questions are open and where a check fails, and `None` once
/// both answers are in and every check passed.
pub open spec fn check_script(src: Seq<char>, dest: Seq<char>, responses: Seq<ResponseView>)
    -> Option<StepView> {
    if responses.len() == 0 {
        Some(StepView::Perform(RequestView::Metadata { path: src }))
    } else {
        match responses[0] {
            ResponseView::Metadata(Ok(metadata)) => if responses.len() == 1 {
                Some(StepView::Perform(RequestView::TryExists { path: dest }))
            } else {
                match responses[1] {
                    ResponseView::Exists(Ok(exists)) => if exists {
                        Some(
                            StepView::fail(
                                move_directory_tag(),
                                ActionErrorKindView::DirExists(dest),
                            ),
                        )
                    } else if !metadata.is_dir {
                        Some(
                            StepView::fail(
                                move_directory_tag(),
                                ActionErrorKindView::PathWasNotDirectory(src),
                            ),
                        )
                    } else {
                        None
                    },
                    ResponseView::Exists(Err(error)) => Some(
                        StepView::fail(
                            move_directory_tag(),
                            ActionErrorKindView::GettingMetadata(dest, error),
                        ),
                    ),
                    _ => Some(unexpected()),
                }
            },
            ResponseView::Metadata(Err(error)) => Some(
                StepView::fail(
                    move_directory_tag(),
                    ActionErrorKindView::GettingMetadata(src, error),
                ),
            ),
            _ => Some(unexpected()),
        }
    }
}

/// The rename itself, one atomic operation.
pub open spec fn rename_script(src: Seq<char>, dest: Seq<char>, responses: Seq<ResponseView>)
    -> StepView {
    if responses.len() == 0 {
        StepView::Perform(RequestView::Rename { from: src, to: dest })
    } else {
        match responses[0] {
            ResponseView::Done(Ok(())) => StepView::Done,
            ResponseView::Done(Err(error)) => StepView::fail(
                move_directory_tag(),
                ActionErrorKindView::Rename(src, dest, error),
            ),
            _ => unexpected(),
        }
    }
}

/// What follows the checks: where `dest` has a parent that does not exist,
/// the parent is created with all that is missing above it; then comes the
/// rename.
pub open spec fn place_script(
    src: Seq<char>,
    dest: Seq<char>,
    parent: Option<Seq<char>>,
    responses: Seq<ResponseView>,
) -> StepView {
    match parent {
        None => rename_script(src, dest, responses),
        Some(parent) => if responses.len() == 0 {
            StepView::Perform(RequestView::TryExists { path: parent })
        } else {
            match responses[0] {
                ResponseView::Exists(Ok(exists)) => if exists {
                    rename_script(src, dest, responses.skip(1))
                } else if responses.len() == 1 {
                    StepView::Perform(RequestView::CreateDirAll { path: parent })
                } else {
                    match responses[1] {
                        ResponseView::Done(Ok(())) => rename_script(src, dest, responses.skip(2)),
                        ResponseView::Done(Err(error)) => StepView::fail(
                            move_directory_tag(),
                            ActionErrorKindView::CreateDirectory(parent, error),
                        ),
                        _ => unexpected(),
                    }
                },
                ResponseView::Exists(Err(error)) => StepView::fail(
                    move_directory_tag(),
                    ActionErrorKindView::GettingMetadata(parent, error),
                ),
                _ => unexpected(),
            }
        },
    }
}

/// Moving `src` to `dest`, where `parent` is the parent of `dest`: the
/// checks of [`check_script`], then [`place_script`].
pub open spec fn move_script(
    src: Seq<char>,
    dest: Seq<char>,
    parent: Option<Seq<char>>,
    responses: Seq<ResponseView>,
) -> StepView {
    match check_script(src, dest, responses) {
        Some(step) => step,
        None => place_script(src, dest, parent, responses.skip(2)),
    }
}

/// What planning a move answers.
pub enum PlanningView {
    /// The driver is to perform the request and report the response.
    Perform(RequestView),
    /// The move is planned, in the given state.
    Planned(ActionState),
    /// The move cannot be planned.
    Failed(ActionErrorView),
}

/// Planning a move of `src` to `dest` against the machine as it is.
///
/// Where `dest` does not exist, `src` must be a directory, and the move
/// has yet to run. Where `dest` exists and `src` does not, the move was
/// made before: `dest` must be a directory, and the move is planned as
/// completed. Where both exist the move cannot be made.
pub open spec fn plan_script(src: Seq<char>, dest: Seq<char>, responses: Seq<ResponseView>)
    -> PlanningView {
    let failed = |kind: ActionErrorKindView|
        PlanningView::Failed(ActionErrorView { action_tag: move_directory_tag(), kind });
    if responses.len() == 0 {
        PlanningView::Perform(RequestView::TryExists { path: dest })
    } else {
        match responses[0] {
            ResponseView::Exists(Ok(false)) => if responses.len() == 1 {
                PlanningView::Perform(RequestView::Metadata { path: src })
            } else {
                match responses[1] {
                    ResponseView::Metadata(Ok(metadata)) => if metadata.is_dir {
                        PlanningView::Planned(ActionState::Uncompleted)
                    } else {
                        failed(ActionErrorKindView::PathWasNotDirectory(src))
                    },
                    ResponseView::Metadata(Err(error)) => failed(
                        ActionErrorKindView::GettingMetadata(src, error),
                    ),
                    _ => failed(ActionErrorKindView::UnexpectedResponse),
                }
            },
            ResponseView::Exists(Ok(true)) => if responses.len() == 1 {
                PlanningView::Perform(RequestView::TryExists { path: src })
            } else {
                match responses[1] {
                    ResponseView::Exists(Ok(true)) => failed(ActionErrorKindView::DirExists(dest)),
                    ResponseView::Exists(Ok(false)) => if responses.len() == 2 {
                        PlanningView::Perform(RequestView::Metadata { path: dest })
                    } else {
                        match responses[2] {
                            ResponseView::Metadata(Ok(metadata)) => if metadata.is_dir {
                                PlanningView::Planned(ActionState::Completed)
                            } else {
                                failed(ActionErrorKindView::PathWasNotDirectory(dest))
                            },
                            ResponseView::Metadata(Err(error)) => failed(
                                ActionErrorKindView::GettingMetadata(dest, error),
                            ),
                            _ => failed(ActionErrorKindView::UnexpectedResponse),
                        }
                    },
                    ResponseView::Exists(Err(error)) => failed(
                        ActionErrorKindView::GettingMetadata(src, error),
                    ),
                    _ => failed(ActionErrorKindView::UnexpectedResponse),
                }
            },
            ResponseView::Exists(Err(error)) => failed(
                ActionErrorKindView::GettingMetadata(dest, error),
            ),
            _ => failed(ActionErrorKindView::UnexpectedResponse),
        }
    }
}

/// What [`MoveDirectory::plan`] answers: the next request, or the end of
/// planning.
#[derive(Debug)]
pub enum Planning {
    /// The driver is to perform the request and report the response.
    Perform(Request),
    /// Planning is over.
    Finish(Result<StatefulAction<MoveDirectory>, ActionError>),
}

/// The tag of [`MoveDirectory`].
fn tag() -> (tag: ActionTag)
    ensures
        tag@ == move_directory_tag(),
{
    ActionTag("move_directory")
}

/// Follows [`rename_script`] on the responses from `start` on.
fn rename_step(src: &str, dest: &str, responses: &Vec<Response>, start: usize) -> (step: Step)
    requires
        start <= responses.len(),
    ensures
        step@ == rename_script(src@, dest@, responses.deep_view().skip(start as int)),
{
    if responses.len() == start {
        return Step::Perform(
            Request::Rename { from: String::from_str(src), to: String::from_str(dest) },
        );
    }
    assert(responses.deep_view().skip(start as int)[0] == responses[start as int]@);
    match &responses[start] {
        Response::Done(Ok(())) => Step::Finish(Ok(())),
        Response::Done(Err(error)) => fail(
            tag(),
            ActionErrorKind::Rename(String::from_str(src), String::from_str(dest), error.clone()),
        ),
        _ => fail(tag(), ActionErrorKind::UnexpectedResponse),
    }
}

/// Follows [`place_script`] on the responses from `start` on.
fn place_step(
    src: &str,
    dest: &str,
    parent: &Option<String>,
    responses: &Vec<Response>,
    start: usize,
) -> (step: Step)
    requires
        start <= responses.len(),
    ensures
        step@ == place_script(
            src@,
            dest@,
            parent.deep_view(),
            responses.deep_view().skip(start as int),
        ),
{
    let ghost rest = responses.deep_view().skip(start as int);
    match parent {
        None => rename_step(src, dest, responses, start),
        Some(parent) => {
            if responses.len() == start {
                return Step::Perform(Request::TryExists { path: parent.clone() });
            }
            assert(rest[0] == responses[start as int]@);
            match &responses[start] {
                Response::Exists(Ok(exists)) => {
                    if *exists {
                        assert(rest.skip(1) =~= responses.deep_view().skip(start + 1));
                        rename_step(src, dest, responses, start + 1)
                    } else if responses.len() == start + 1 {
                        Step::Perform(Request::CreateDirAll { path: parent.clone() })
                    } else {
                        assert(rest[1] == responses[start + 1]@);
                        match &responses[start + 1] {
                            Response::Done(Ok(())) => {
                                assert(rest.skip(2) =~= responses.deep_view().skip(start + 2));
                                rename_step(src, dest, responses, start + 2)
                            },
                            Response::Done(Err(error)) => fail(
                                tag(),
                                ActionErrorKind::CreateDirectory(parent.clone(), error.clone()),
                            ),
                            _ => fail(tag(), ActionErrorKind::UnexpectedResponse),
                        }
                    }
                },
                Response::Exists(Err(error)) => fail(
                    tag(),
                    ActionErrorKind::GettingMetadata(parent.clone(), error.clone()),
                ),
                _ => fail(tag(), ActionErrorKind::UnexpectedResponse),
            }
        },
    }
}

/// One step of moving `src` to `dest`, where `parent` is the parent of
/// `dest`: the step of [`move_script`].
pub fn move_step(
    src: &str,
    dest: &str,
    parent: &Option<String>,
    responses: &Vec<Response>,
) -> (step: Step)
    ensures
        step@ == move_script(src@, dest@, parent.deep_view(), responses.deep_view()),
{
    match MoveDirectory::check_src_and_dest(src, dest, responses) {
        Some(step) => step,
        None => place_step(src, dest, parent, responses, 2),
    }
}

impl MoveDirectory {
    /// One step of planning a move of `src` to `dest`: the step of
    /// [`plan_script`]. Planning asks questions only; it changes nothing.
    pub fn plan(src: &str, dest: &str, responses: &Vec<Response>) -> (planning: Planning)
        ensures
            match planning {
                Planning::Perform(request) => plan_script(src@, dest@, responses.deep_view())
                    == PlanningView::Perform(request@),
                Planning::Finish(Ok(planned)) => plan_script(src@, dest@, responses.deep_view())
                    == PlanningView::Planned(planned.state) && planned.action.src@ == src@
                    && planned.action.dest@ == dest@,
                Planning::Finish(Err(error)) => plan_script(src@, dest@, responses.deep_view())
                    == PlanningView::Failed(error@),
            },
    {
        if responses.len() == 0 {
            return Planning::Perform(Request::TryExists { path: String::from_str(dest) });
        }
        let dest_exists = match &responses[0] {
            Response::Exists(Ok(exists)) => *exists,
            Response::Exists(Err(error)) => {
                return Self::plan_failed(
                    ActionErrorKind::GettingMetadata(String::from_str(dest), error.clone()),
                );
            },
            _ => {
                return Self::plan_failed(ActionErrorKind::UnexpectedResponse);
            },
        };
        if !dest_exists {
            if responses.len() == 1 {
                return Planning::Perform(Request::Metadata { path: String::from_str(src) });
            }
            return match &responses[1] {
                Response::Metadata(Ok(metadata)) => {
                    if metadata.is_dir {
                        Self::planned(src, dest, ActionState::Uncompleted)
                    } else {
                        Self::plan_failed(
                            ActionErrorKind::PathWasNotDirectory(String::from_str(src)),
                        )
                    }
                },
                Response::Metadata(Err(error)) => Self::plan_failed(
                    ActionErrorKind::GettingMetadata(String::from_str(src), error.clone()),
                ),
                _ => Self::plan_failed(ActionErrorKind::UnexpectedResponse),
            };
        }
        if responses.len() == 1 {
            return Planning::Perform(Request::TryExists { path: String::from_str(src) });
        }
        match &responses[1] {
            Response::Exists(Ok(true)) => {
                return Self::plan_failed(ActionErrorKind::DirExists(String::from_str(dest)));
            },
            Response::Exists(Ok(false)) => {},
            Response::Exists(Err(error)) => {
                return Self::plan_failed(
                    ActionErrorKind::GettingMetadata(String::from_str(src), error.clone()),
                );
            },
            _ => {
                return Self::plan_failed(ActionErrorKind::UnexpectedResponse);
            },
        }
        if responses.len() == 2 {
            return Planning::Perform(Request::Metadata { path: String::from_str(dest) });
        }
        match &responses[2] {
            Response::Metadata(Ok(metadata)) => {
                if metadata.is_dir {
                    Self::planned(src, dest, ActionState::Completed)
                } else {
                    Self::plan_failed(ActionErrorKind::PathWasNotDirectory(String::from_str(dest)))
                }
            },
            Response::Metadata(Err(error)) => Self::plan_failed(
                ActionErrorKind::GettingMetadata(String::from_str(dest), error.clone()),
            ),
            _ => Self::plan_failed(ActionErrorKind::UnexpectedResponse),
        }
    }

    /// The end of planning with the move in `state`.
    fn planned(src: &str, dest: &str, state: ActionState) -> (planning: Planning)
        ensures
            planning matches Planning::Finish(Ok(planned)) && planned.state == state
                && planned.action.src@ == src@ && planned.action.dest@ == dest@,
    {
        Planning::Finish(
            Ok(
                StatefulAction {
                    action: MoveDirectory {
                        src: String::from_str(src),
                        dest: String::from_str(dest),
                    },
                    state,
                },
            ),
        )
    }

    /// The end of planning with an error.
    fn plan_failed(kind: ActionErrorKind) -> (planning: Planning)
        ensures
            planning matches Planning::Finish(Err(error)) && error@ == (ActionErrorView {
                action_tag: move_directory_tag(),
                kind: kind@,
            }),
    {
        Planning::Finish(Err(ActionError::new(tag(), kind)))
    }

    /// One step of checking that `src` can be moved to `dest`: the step of
    /// [`check_script`], and `None` once the checks have passed.
    pub fn check_src_and_dest(src: &str, dest: &str, responses: &Vec<Response>) -> (step: Option<
        Step,
    >)
        ensures
            step.is_some() == check_script(src@, dest@, responses.deep_view()).is_some(),
            step matches Some(step) ==> check_script(src@, dest@, responses.deep_view()) == Some(
                step@,
            ),
            step.is_none() ==> responses.len() >= 2,
    {
        if responses.len() == 0 {
            return Some(Step::Perform(Request::Metadata { path: String::from_str(src) }));
        }
        let src_is_dir = match &responses[0] {
            Response::Metadata(Ok(metadata)) => metadata.is_dir,
            Response::Metadata(Err(error)) => {
                return Some(
                    fail(
                        tag(),
                        ActionErrorKind::GettingMetadata(String::from_str(src), error.clone()),
                    ),
                );
            },
            _ => {
                return Some(fail(tag(), ActionErrorKind::UnexpectedResponse));
            },
        };
        if responses.len() == 1 {
            return Some(Step::Perform(Request::TryExists { path: String::from_str(dest) }));
        }
        let dest_exists = match &responses[1] {
            Response::Exists(Ok(exists)) => *exists,
            Response::Exists(Err(error)) => {
                return Some(
                    fail(
                        tag(),
                        ActionErrorKind::GettingMetadata(String::from_str(dest), error.clone()),
                    ),
                );
            },
            _ => {
                return Some(fail(tag(), ActionErrorKind::UnexpectedResponse));
            },
        };
        if dest_exists {
            return Some(fail(tag(), ActionErrorKind::DirExists(String::from_str(dest))));
        }
        if !src_is_dir {
            return Some(fail(tag(), ActionErrorKind::PathWasNotDirectory(String::from_str(src))));
        }
        None
    }
}

impl Action for MoveDirectory {
    open spec fn tag(&self) -> Seq<char> {
        move_directory_tag()
    }

    open spec fn synopsis(&self) -> Seq<char> {
        "Move directory `"@ + self.src@ + "` to `"@ + self.dest@ + "`"@
    }

    open spec fn execute_explanation(&self) -> Seq<ActionDescriptionView> {
        seq![
            ActionDescriptionView {
                description: self.synopsis(),
                explanation: Seq::<Seq<char>>::empty(),
            },
        ]
    }

    open spec fn revert_explanation(&self) -> Seq<ActionDescriptionView> {
        seq![
            ActionDescriptionView {
                description: "Move directory `"@ + self.dest@ + "` back to `"@ + self.src@ + "`"@,
                explanation: Seq::<Seq<char>>::empty(),
            },
        ]
    }

    /// Move `src` to `dest`.
    open spec fn execute_script(&self, responses: Seq<ResponseView>) -> StepView {
        move_script(self.src@, self.dest@, parent_path(self.dest@), responses)
    }

    /// Move `dest` back to `src`.
    open spec fn revert_script(&self, responses: Seq<ResponseView>) -> StepView {
        move_script(self.dest@, self.src@, parent_path(self.src@), responses)
    }

    fn action_tag(&self) -> (tag: ActionTag) {
        ActionTag("move_directory")
    }

    fn tracing_synopsis(&self) -> (synopsis: String) {
        let mut synopsis = String::from_str("Move directory `");
        synopsis.append(self.src.as_str());
        synopsis.append("` to `");
        synopsis.append(self.dest.as_str());
        synopsis.append("`");
        synopsis
    }

    fn execute_description(&self) -> (description: Vec<ActionDescription>) {
        let none: Vec<String> = Vec::new();
        assert(none.deep_view() =~= Seq::<Seq<char>>::empty());
        let mut description: Vec<ActionDescription> = Vec::new();
        description.push(ActionDescription::new(self.tracing_synopsis(), none));
        assert(description.deep_view() =~= self.execute_explanation());
        description
    }

    fn revert_description(&self) -> (description: Vec<ActionDescription>) {
        let mut back = String::from_str("Move directory `");
        back.append(self.dest.as_str());
        back.append("` back to `");
        back.append(self.src.as_str());
        back.append("`");
        let none: Vec<String> = Vec::new();
        assert(none.deep_view() =~= Seq::<Seq<char>>::empty());
        let mut description: Vec<ActionDescription> = Vec::new();
        description.push(ActionDescription::new(back, none));
        assert(description.deep_view() =~= self.revert_explanation());
        description
    }

    fn execute(&self, responses: &Vec<Response>) -> (step: Step) {
        let parent = parent_of(self.dest.as_str());
        move_step(self.src.as_str(), self.dest.as_str(), &parent, responses)
    }

    fn revert(&self, responses: &Vec<Response>) -> (step: Step) {
        let parent = parent_of(self.src.as_str());
        move_step(self.dest.as_str(), self.src.as_str(), &parent, responses)
    }
}

/// The requests of a move of `src` to `dest` that succeeds: the two
/// checks; where `dest` has a parent, the question whether it exists and,
/// where `created` is set, its creation; and the rename.
pub open spec fn move_requests(
    src: Seq<char>,
    dest: Seq<char>,
    parent: Option<Seq<char>>,
    created: bool,
) -> Seq<RequestView> {
    let checks = seq![
        RequestView::Metadata { path: src },
        RequestView::TryExists { path: dest },
    ];
    let place = match parent {
        None => Seq::<RequestView>::empty(),
        Some(parent) => if created {
            seq![
                RequestView::TryExists { path: parent },
                RequestView::CreateDirAll { path: parent },
            ]
        } else {
            seq![RequestView::TryExists { path: parent }]
        },
    };
    checks + place + seq![RequestView::Rename { from: src, to: dest }]
}

/// Whether the move had to create the parent of its target: the answers
/// of a run that did are five.
pub open spec fn created_parent(responses: Seq<ResponseView>) -> bool {
    responses.len() == 5
}

proof fn lemma_move_requests(
    src: Seq<char>,
    dest: Seq<char>,
    parent: Option<Seq<char>>,
    responses: Seq<ResponseView>,
)
    requires
        forall|i: int|
            0 <= i < responses.len() ==> #[trigger] move_script(
                src,
                dest,
                parent,
                responses.take(i),
            ) is Perform,
        move_script(src, dest, parent, responses) == StepView::Done,
    ensures
        Seq::new(
            responses.len(),
            |i: int| move_script(src, dest, parent, responses.take(i))->Perform_0,
        ) == move_requests(src, dest, parent, created_parent(responses)),
        created_parent(responses) ==> parent is Some,
{
    let made = Seq::new(
        responses.len(),
        |i: int| move_script(src, dest, parent, responses.take(i))->Perform_0,
    );
    assert(responses.len() >= 2);
    let checked = responses.skip(2);
    assert forall|i: int| 0 <= i <= responses.len() implies (#[trigger] responses.take(i)).len()
        == i && (forall|j: int| 0 <= j < i ==> responses.take(i)[j] == responses[j]) by {}
    assert forall|i: int| 2 <= i <= responses.len() implies #[trigger] responses.take(i).skip(2)
        =~= checked.take(i - 2) by {}
    assert(move_script(src, dest, parent, responses.take(0)) is Perform);
    assert(move_script(src, dest, parent, responses.take(1)) is Perform);
    assert(move_script(src, dest, parent, responses.take(2)) is Perform);
    assert(responses.len() >= 3);
    match parent {
        None => {
            assert(responses.len() == 3) by {
                if responses.len() > 3 {
                    assert(move_script(src, dest, parent, responses.take(3)) is Perform);
                }
            }
        },
        Some(parent_path) => {
            assert(move_script(src, dest, parent, responses.take(3)) is Perform);
            assert(responses.len() >= 4);
            if responses.len() > 4 {
                assert(move_script(src, dest, parent, responses.take(4)) is Perform);
                assert(responses.take(4).skip(2).skip(1) =~= checked.take(2).skip(1));
                assert(responses.take(4).skip(2).skip(2) =~= checked.take(2).skip(2));
                if responses.len() > 5 {
                    assert(move_script(src, dest, parent, responses.take(5)) is Perform);
                    assert(responses.take(5).skip(2).skip(1) =~= checked.take(3).skip(1));
                    assert(responses.take(5).skip(2).skip(2) =~= checked.take(3).skip(2));
                }
            }
        },
    }
    assert(made =~= move_requests(src, dest, parent, created_parent(responses)));
}

/// What a move asks of the machine when it succeeds, and what its revert
/// asks: the same, with source and target exchanged.
///
/// A forward run that ends in success made the requests of
/// [`move_requests`] from `src` to `dest` and no other: it changed the
/// machine by one rename of `src` to `dest`, after creating the parent of
/// `dest` where that was missing. A reverse run that ends in success made
/// those from `dest` to `src`: its one rename is the inverse of the first.
pub proof fn lemma_revert_moves_back(
    action: MoveDirectory,
    forward: Seq<ResponseView>,
    backward: Seq<ResponseView>,
)
    ensures
        succeeds_forward(action, forward) ==> execute_requests(action, forward) == move_requests(
            action.src@,
            action.dest@,
            parent_path(action.dest@),
            created_parent(forward),
        ),
        succeeds_backward(action, backward) ==> revert_requests(action, backward) == move_requests(
            action.dest@,
            action.src@,
            parent_path(action.src@),
            created_parent(backward),
        ),
{
    if succeeds_forward(action, forward) {
        assert forall|i: int| 0 <= i < forward.len() implies #[trigger] move_script(
            action.src@,
            action.dest@,
            parent_path(action.dest@),
            forward.take(i),
        ) is Perform by {
            assert(action.execute_script(forward.take(i)) is Perform);
        }
        lemma_move_requests(action.src@, action.dest@, parent_path(action.dest@), forward);
        assert(execute_requests(action, forward) =~= move_requests(
            action.src@,
            action.dest@,
            parent_path(action.dest@),
            created_parent(forward),
        ));
    }
    if succeeds_backward(action, backward) {
        assert forall|i: int| 0 <= i < backward.len() implies #[trigger] move_script(
            action.dest@,
            action.src@,
            parent_path(action.src@),
            backward.take(i),
        ) is Perform by {
            assert(action.revert_script(backward.take(i)) is Perform);
        }
        lemma_move_requests(action.dest@, action.src@, parent_path(action.src@), backward);
        assert(revert_requests(action, backward) =~= move_requests(
            action.dest@,
            action.src@,
            parent_path(action.src@),
            created_parent(backward),
        ));
    }
}

/// A move is run by its two paths alone: two moves with the same paths, as
/// text, have the same scripts.
pub proof fn lemma_move_runs_by_its_paths(left: MoveDirectory, right: MoveDirectory)
    requires
        left.src@ == right.src@,
        left.dest@ == right.dest@,
    ensures
        same_scripts(left, right),
{
}

proof fn lemma_moved(
    src: Seq<char>,
    dest: Seq<char>,
    parent: Option<Seq<char>>,
    created: bool,
    tree: Tree,
)
    requires
        tree.contains_key(src),
        src != dest,
        created ==> parent is Some,
    ensures
        ({
            let moved = performed_all(tree, move_requests(src, dest, parent, created));
            &&& !moved.contains_key(src)
            &&& moved.contains_key(dest)
            &&& moved[dest] == tree[src]
            &&& forall|path: Seq<char>|
                path != src && path != dest && tree.contains_key(path)
                    ==> #[trigger] moved.contains_key(path) && moved[path] == tree[path]
            &&& forall|path: Seq<char>| #[trigger]
                moved.contains_key(path) ==> path == dest || tree.contains_key(path) || (created
                    && parent == Some(path))
        }),
{
    let requests = move_requests(src, dest, parent, created);
    let rename = RequestView::Rename { from: src, to: dest };
    let asked = seq![RequestView::Metadata { path: src }, RequestView::TryExists { path: dest }];
    assert(performed_all(tree, asked) == tree) by {
        reveal_with_fuel(performed_all, 3);
        assert(asked.drop_last() =~= seq![RequestView::Metadata { path: src }]);
        assert(asked.drop_last().drop_last() =~= Seq::<RequestView>::empty());
    }
    match parent {
        None => {
            assert(requests.drop_last() =~= asked);
            assert(requests.last() == rename);
        },
        Some(parent) => {
            let looked = asked.push(RequestView::TryExists { path: parent });
            assert(looked.drop_last() =~= asked);
            assert(performed_all(tree, looked) == tree);
            if created {
                let made = looked.push(RequestView::CreateDirAll { path: parent });
                assert(made.drop_last() =~= looked);
                assert(performed_all(tree, made) == performed(
                    tree,
                    RequestView::CreateDirAll { path: parent },
                ));
                assert(requests.drop_last() =~= made);
                assert(requests.last() == rename);
            } else {
                assert(requests.drop_last() =~= looked);
                assert(requests.last() == rename);
            }
        },
    }
}

/// Moving a directory and moving it back leaves the machine as it was.
///
/// Take a file system, in the model of [`crate::tree`], where `src` names
/// something and `dest` names nothing, a forward run of the move that
/// ended in success, and then a reverse run that ended in success. After
/// the first, `dest` names what `src` named and `src` names nothing. After
/// the second, `src` names again what it named, `dest` names nothing, and
/// every other path names what it named before. Nothing was added either,
/// but for the parents that the two runs had to create.
pub proof fn lemma_move_and_back_restores(
    action: MoveDirectory,
    forward: Seq<ResponseView>,
    backward: Seq<ResponseView>,
    tree: Tree,
)
    requires
        succeeds_forward(action, forward),
        succeeds_backward(action, backward),
        tree.contains_key(action.src@),
        !tree.contains_key(action.dest@),
    ensures
        ({
            let moved = performed_all(tree, execute_requests(action, forward));
            let back = performed_all(moved, revert_requests(action, backward));
            &&& !moved.contains_key(action.src@)
            &&& moved.contains_key(action.dest@)
            &&& moved[action.dest@] == tree[action.src@]
            &&& !back.contains_key(action.dest@)
            &&& forall|path: Seq<char>|
                tree.contains_key(path) ==> #[trigger] back.contains_key(path) && back[path]
                    == tree[path]
            &&& forall|path: Seq<char>| #[trigger]
                back.contains_key(path) ==> tree.contains_key(path) || (created_parent(forward)
                    && parent_path(action.dest@) == Some(path)) || (created_parent(backward)
                    && parent_path(action.src@) == Some(path))
        }),
{
    let src = action.src@;
    let dest = action.dest@;
    lemma_revert_moves_back(action, forward, backward);
    assert forall|i: int| 0 <= i < forward.len() implies #[trigger] move_script(
        src,
        dest,
        parent_path(dest),
        forward.take(i),
    ) is Perform by {
        assert(action.execute_script(forward.take(i)) is Perform);
    }
    lemma_move_requests(src, dest, parent_path(dest), forward);
    assert forall|i: int| 0 <= i < backward.len() implies #[trigger] move_script(
        dest,
        src,
        parent_path(src),
        backward.take(i),
    ) is Perform by {
        assert(action.revert_script(backward.take(i)) is Perform);
    }
    lemma_move_requests(dest, src, parent_path(src), backward);
    lemma_moved(src, dest, parent_path(dest), created_parent(forward), tree);
    let moved = performed_all(tree, execute_requests(action, forward));
    lemma_moved(dest, src, parent_path(src), created_parent(backward), moved);
    let back = performed_all(moved, revert_requests(action, backward));
    assert forall|path: Seq<char>| tree.contains_key(path) implies #[trigger] back.contains_key(
        path,
    ) && back[path] == tree[path] by {
        if path != src {
            assert(moved.contains_key(path));
            assert(back.contains_key(path));
        }
    }
    assert forall|path: Seq<char>| #[trigger] back.contains_key(path) implies tree.contains_key(
        path,
    ) || (created_parent(forward) && parent_path(dest) == Some(path)) || (created_parent(backward)
        && parent_path(src) == Some(path)) by {
        if path != src && !(created_parent(backward) && parent_path(src) == Some(path)) {
            assert(moved.contains_key(path));
        }
    }
}

/// Planning a move changes nothing: whatever the responses, a request
/// that planning makes is a question about a path.
pub proof fn lemma_planning_only_asks(
    src: Seq<char>,
    dest: Seq<char>,
    responses: Seq<ResponseView>,
)
    ensures
        plan_script(src, dest, responses) matches PlanningView::Perform(request) ==> request
            is Metadata || request is TryExists,
{
}

} // verus!
