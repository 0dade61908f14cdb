use nix_installer::action::base::move_directory::{move_step, MoveDirectory, Planning};
use nix_installer::action::{
    Action, ActionError, ActionErrorKind, ActionState, StatefulAction, Step,
};
use nix_installer::system::{Metadata, OsError, Request, Response};

fn os_error(error: std::io::Error) -> OsError {
    OsError {
        code: error.raw_os_error(),
        message: error.to_string(),
    }
}

/// Runs one file-system operation to its end.
fn wait<T>(operation: impl std::future::Future<Output = std::io::Result<T>>) -> Result<T, OsError> {
    tokio::runtime::Builder::new_current_thread()
        .build()
        .unwrap()
        .block_on(operation)
        .map_err(os_error)
}

/// Performs a request on the real file system.
fn perform(request: &Request) -> Response {
    match request {
        Request::Metadata { path } => {
            Response::Metadata(wait(tokio::fs::metadata(path)).map(|metadata| Metadata {
                is_dir: metadata.is_dir(),
            }))
        }
        Request::TryExists { path } => Response::Exists(wait(tokio::fs::try_exists(path))),
        Request::CreateDirAll { path } => Response::Done(wait(tokio::fs::create_dir_all(path))),
        Request::Rename { from, to } => Response::Done(wait(tokio::fs::rename(from, to))),
        Request::Write { path, contents } => Response::Done(wait(tokio::fs::write(path, contents))),
        Request::RemoveFile { path } => Response::Done(wait(tokio::fs::remove_file(path))),
        Request::Run { .. } => panic!("no command is run in these tests"),
    }
}

fn plan(src: &str, dest: &str) -> Result<StatefulAction<MoveDirectory>, ActionError> {
    let mut responses = Vec::new();
    loop {
        match MoveDirectory::plan(src, dest, &responses) {
            Planning::Perform(request) => responses.push(perform(&request)),
            Planning::Finish(result) => return result,
        }
    }
}

fn try_execute(action: &mut StatefulAction<MoveDirectory>) -> Result<(), ActionError> {
    let mut responses = Vec::new();
    loop {
        match action.try_execute(&responses) {
            Step::Perform(request) => responses.push(perform(&request)),
            Step::Finish(result) => return result,
        }
    }
}

fn try_revert(action: &mut StatefulAction<MoveDirectory>) -> Result<(), ActionError> {
    let mut responses = Vec::new();
    loop {
        match action.try_revert(&responses) {
            Step::Perform(request) => responses.push(perform(&request)),
            Step::Finish(result) => return result,
        }
    }
}

#[test]
fn moves_and_reverts_directory() {
    let temp_dir = tempfile::tempdir().unwrap();
    let src_dir = temp_dir.path().join("source");
    let dest_dir = temp_dir.path().join("destination");

    // Create source directory with some content
    wait(tokio::fs::create_dir_all(&src_dir)).unwrap();
    wait(tokio::fs::write(src_dir.join("test.txt"), "test content")).unwrap();

    let mut action = plan(src_dir.to_str().unwrap(), dest_dir.to_str().unwrap()).unwrap();

    // Execute should move the directory
    try_execute(&mut action).unwrap();

    assert!(
        !src_dir.exists(),
        "Source directory should not exist after move"
    );
    assert!(
        dest_dir.exists(),
        "Destination directory should exist after move"
    );
    assert!(
        dest_dir.join("test.txt").exists(),
        "Content should be moved"
    );

    // Revert should move it back
    try_revert(&mut action).unwrap();

    assert!(
        src_dir.exists(),
        "Source directory should exist after revert"
    );
    assert!(
        !dest_dir.exists(),
        "Destination directory should not exist after revert"
    );
    assert!(
        src_dir.join("test.txt").exists(),
        "Content should be moved back"
    );
}

#[test]
fn handles_already_moved_directory() {
    let temp_dir = tempfile::tempdir().unwrap();
    let src_dir = temp_dir.path().join("source");
    let dest_dir = temp_dir.path().join("destination");

    // Create destination directory (simulating already moved)
    wait(tokio::fs::create_dir_all(&dest_dir)).unwrap();

    let action = plan(src_dir.to_str().unwrap(), dest_dir.to_str().unwrap()).unwrap();

    // Should be marked as completed
    assert!(matches!(action.state, ActionState::Completed));
}

#[test]
fn fails_when_source_missing() {
    let temp_dir = tempfile::tempdir().unwrap();
    let src_dir = temp_dir.path().join("nonexistent");
    let dest_dir = temp_dir.path().join("destination");

    let result = plan(src_dir.to_str().unwrap(), dest_dir.to_str().unwrap());

    assert!(result.is_err(), "Should fail when source doesn't exist");
    let error = result.unwrap_err();
    assert!(matches!(
        error.kind(),
        ActionErrorKind::GettingMetadata(path, _) if path == src_dir.to_str().unwrap()
    ));
}

#[test]
fn planning_refuses_a_move_onto_something() {
    let temp_dir = tempfile::tempdir().unwrap();
    let src_dir = temp_dir.path().join("source");
    let dest_dir = temp_dir.path().join("destination");
    wait(tokio::fs::create_dir_all(&src_dir)).unwrap();
    wait(tokio::fs::create_dir_all(&dest_dir)).unwrap();

    let error = plan(src_dir.to_str().unwrap(), dest_dir.to_str().unwrap()).unwrap_err();

    assert_eq!(error.action_tag().0, "move_directory");
    assert!(matches!(
        error.kind(),
        ActionErrorKind::DirExists(path) if path == dest_dir.to_str().unwrap()
    ));
}

#[test]
fn planning_refuses_to_move_a_file() {
    let temp_dir = tempfile::tempdir().unwrap();
    let src = temp_dir.path().join("source");
    let dest_dir = temp_dir.path().join("destination");
    wait(tokio::fs::write(&src, "a file")).unwrap();

    let error = plan(src.to_str().unwrap(), dest_dir.to_str().unwrap()).unwrap_err();

    assert!(matches!(
        error.kind(),
        ActionErrorKind::PathWasNotDirectory(path) if path == src.to_str().unwrap()
    ));
}

#[test]
fn a_file_in_place_of_the_destination_is_no_completed_move() {
    let temp_dir = tempfile::tempdir().unwrap();
    let src_dir = temp_dir.path().join("source");
    let dest = temp_dir.path().join("destination");
    wait(tokio::fs::write(&dest, "a file")).unwrap();

    let error = plan(src_dir.to_str().unwrap(), dest.to_str().unwrap()).unwrap_err();

    assert!(matches!(
        error.kind(),
        ActionErrorKind::PathWasNotDirectory(path) if path == dest.to_str().unwrap()
    ));
}

#[test]
fn planning_changes_nothing() {
    let temp_dir = tempfile::tempdir().unwrap();
    let src_dir = temp_dir.path().join("source");
    let dest_dir = temp_dir.path().join("deep").join("destination");
    wait(tokio::fs::create_dir_all(&src_dir)).unwrap();

    let action = plan(src_dir.to_str().unwrap(), dest_dir.to_str().unwrap()).unwrap();

    assert_eq!(action.state, ActionState::Uncompleted);
    assert!(src_dir.exists());
    assert!(!dest_dir.exists());
    assert!(!temp_dir.path().join("deep").exists());
}

#[test]
fn execute_creates_the_missing_parent_of_the_destination() {
    let temp_dir = tempfile::tempdir().unwrap();
    let src_dir = temp_dir.path().join("source");
    let dest_dir = temp_dir.path().join("a").join("b").join("destination");
    wait(tokio::fs::create_dir_all(&src_dir)).unwrap();
    wait(tokio::fs::write(src_dir.join("test.txt"), "test content")).unwrap();

    let mut action = plan(src_dir.to_str().unwrap(), dest_dir.to_str().unwrap()).unwrap();
    try_execute(&mut action).unwrap();

    assert_eq!(action.state, ActionState::Completed);
    assert!(!src_dir.exists());
    assert_eq!(
        wait(tokio::fs::read_to_string(dest_dir.join("test.txt"))).unwrap(),
        "test content"
    );

    try_revert(&mut action).unwrap();

    assert_eq!(action.state, ActionState::Uncompleted);
    assert!(!dest_dir.exists());
    assert_eq!(
        wait(tokio::fs::read_to_string(src_dir.join("test.txt"))).unwrap(),
        "test content"
    );
}

#[test]
fn execute_checks_again_what_planning_checked() {
    let temp_dir = tempfile::tempdir().unwrap();
    let src_dir = temp_dir.path().join("source");
    let dest_dir = temp_dir.path().join("destination");
    wait(tokio::fs::create_dir_all(&src_dir)).unwrap();

    let mut action = plan(src_dir.to_str().unwrap(), dest_dir.to_str().unwrap()).unwrap();
    // The destination turns up between planning and executing.
    wait(tokio::fs::create_dir_all(&dest_dir)).unwrap();
    let error = try_execute(&mut action).unwrap_err();

    assert!(matches!(
        error.kind(),
        ActionErrorKind::DirExists(path) if path == dest_dir.to_str().unwrap()
    ));
    assert_eq!(action.state, ActionState::Progress);
    assert!(src_dir.exists());
}

#[test]
fn executing_twice_moves_once() {
    let temp_dir = tempfile::tempdir().unwrap();
    let src_dir = temp_dir.path().join("source");
    let dest_dir = temp_dir.path().join("destination");
    wait(tokio::fs::create_dir_all(&src_dir)).unwrap();

    let mut action = plan(src_dir.to_str().unwrap(), dest_dir.to_str().unwrap()).unwrap();
    try_execute(&mut action).unwrap();
    // The second time nothing is asked of the machine.
    assert!(matches!(action.try_execute(&Vec::new()), Step::Finish(Ok(()))));
    assert_eq!(action.state, ActionState::Completed);
    assert!(dest_dir.exists());

    try_revert(&mut action).unwrap();
    assert!(matches!(action.try_revert(&Vec::new()), Step::Finish(Ok(()))));
    assert_eq!(action.state, ActionState::Uncompleted);
    assert!(src_dir.exists());
}

#[test]
fn a_move_found_completed_can_be_reverted() {
    let temp_dir = tempfile::tempdir().unwrap();
    let src_dir = temp_dir.path().join("source");
    let dest_dir = temp_dir.path().join("destination");
    wait(tokio::fs::create_dir_all(&dest_dir)).unwrap();

    let mut action = plan(src_dir.to_str().unwrap(), dest_dir.to_str().unwrap()).unwrap();
    assert_eq!(action.state, ActionState::Completed);
    try_revert(&mut action).unwrap();

    assert_eq!(action.state, ActionState::Uncompleted);
    assert!(src_dir.exists());
    assert!(!dest_dir.exists());
}

fn a_move() -> MoveDirectory {
    MoveDirectory {
        src: String::from("/nix"),
        dest: String::from("/usr/lib/nix-install"),
    }
}

fn directory() -> Response {
    Response::Metadata(Ok(Metadata { is_dir: true }))
}

fn failure() -> OsError {
    OsError {
        code: Some(5),
        message: String::from("Input/output error"),
    }
}

#[test]
fn the_move_says_what_it_does() {
    let action = a_move();
    assert_eq!(action.action_tag().0, "move_directory");
    assert_eq!(
        action.tracing_synopsis(),
        "Move directory `/nix` to `/usr/lib/nix-install`"
    );
    let execute = action.execute_description();
    assert_eq!(execute.len(), 1);
    assert_eq!(
        execute[0].description,
        "Move directory `/nix` to `/usr/lib/nix-install`"
    );
    assert!(execute[0].explanation.is_empty());
    let revert = action.revert_description();
    assert_eq!(revert.len(), 1);
    assert_eq!(
        revert[0].description,
        "Move directory `/usr/lib/nix-install` back to `/nix`"
    );
    assert!(revert[0].explanation.is_empty());
}

fn requested(step: Step) -> Request {
    match step {
        Step::Perform(request) => request,
        other => panic!("unexpected step {other:?}"),
    }
}

fn failed(step: Step) -> ActionErrorKind {
    match step {
        Step::Finish(Err(error)) => {
            assert_eq!(error.action_tag().0, "move_directory");
            error.kind().clone()
        }
        other => panic!("unexpected step {other:?}"),
    }
}

#[test]
fn execute_asks_for_one_thing_after_the_other() {
    let action = a_move();
    let mut responses = Vec::new();
    assert!(matches!(
        requested(action.execute(&responses)),
        Request::Metadata { path } if path == "/nix"
    ));
    responses.push(directory());
    assert!(matches!(
        requested(action.execute(&responses)),
        Request::TryExists { path } if path == "/usr/lib/nix-install"
    ));
    responses.push(Response::Exists(Ok(false)));
    assert!(matches!(
        requested(action.execute(&responses)),
        Request::TryExists { path } if path == "/usr/lib"
    ));
    responses.push(Response::Exists(Ok(false)));
    assert!(matches!(
        requested(action.execute(&responses)),
        Request::CreateDirAll { path } if path == "/usr/lib"
    ));
    responses.push(Response::Done(Ok(())));
    assert!(matches!(
        requested(action.execute(&responses)),
        Request::Rename { from, to } if from == "/nix" && to == "/usr/lib/nix-install"
    ));
    responses.push(Response::Done(Ok(())));
    assert!(matches!(action.execute(&responses), Step::Finish(Ok(()))));
}

#[test]
fn revert_asks_for_the_same_the_other_way_round() {
    let action = a_move();
    let mut responses = Vec::new();
    assert!(matches!(
        requested(action.revert(&responses)),
        Request::Metadata { path } if path == "/usr/lib/nix-install"
    ));
    responses.push(directory());
    assert!(matches!(
        requested(action.revert(&responses)),
        Request::TryExists { path } if path == "/nix"
    ));
    responses.push(Response::Exists(Ok(false)));
    assert!(matches!(
        requested(action.revert(&responses)),
        Request::TryExists { path } if path == "/"
    ));
    responses.push(Response::Exists(Ok(true)));
    assert!(matches!(
        requested(action.revert(&responses)),
        Request::Rename { from, to } if from == "/usr/lib/nix-install" && to == "/nix"
    ));
    responses.push(Response::Done(Ok(())));
    assert!(matches!(action.revert(&responses), Step::Finish(Ok(()))));
}

#[test]
fn a_path_without_a_parent_is_renamed_right_after_the_checks() {
    let responses = vec![directory(), Response::Exists(Ok(false))];
    assert!(matches!(
        requested(move_step("/nix", "/", &None, &responses)),
        Request::Rename { from, to } if from == "/nix" && to == "/"
    ));
    // The standard library gives the root no parent.
    let action = MoveDirectory {
        src: String::from("/nix"),
        dest: String::from("/"),
    };
    assert!(matches!(
        requested(action.execute(&responses)),
        Request::Rename { .. }
    ));
}

#[test]
fn the_checks_fail_in_their_order() {
    let action = a_move();
    assert!(matches!(
        failed(action.execute(&vec![Response::Metadata(Err(failure()))])),
        ActionErrorKind::GettingMetadata(path, error) if path == "/nix" && error.code == Some(5)
    ));
    assert!(matches!(
        failed(action.execute(&vec![directory(), Response::Exists(Err(failure()))])),
        ActionErrorKind::GettingMetadata(path, _) if path == "/usr/lib/nix-install"
    ));
    let a_file = Response::Metadata(Ok(Metadata { is_dir: false }));
    // An existing destination is reported before a source that is no directory.
    assert!(matches!(
        failed(action.execute(&vec![a_file, Response::Exists(Ok(true))])),
        ActionErrorKind::DirExists(path) if path == "/usr/lib/nix-install"
    ));
    let a_file = Response::Metadata(Ok(Metadata { is_dir: false }));
    assert!(matches!(
        failed(action.execute(&vec![a_file, Response::Exists(Ok(false))])),
        ActionErrorKind::PathWasNotDirectory(path) if path == "/nix"
    ));
}

#[test]
fn the_checks_pass_on_a_directory_and_a_free_destination() {
    let passed = vec![directory(), Response::Exists(Ok(false))];
    assert!(MoveDirectory::check_src_and_dest("/nix", "/image", &passed).is_none());
    assert!(matches!(
        MoveDirectory::check_src_and_dest("/nix", "/image", &Vec::new()),
        Some(Step::Perform(Request::Metadata { path })) if path == "/nix"
    ));
    assert!(matches!(
        MoveDirectory::check_src_and_dest("/nix", "/image", &vec![directory()]),
        Some(Step::Perform(Request::TryExists { path })) if path == "/image"
    ));
    let taken = vec![directory(), Response::Exists(Ok(true))];
    assert!(matches!(
        MoveDirectory::check_src_and_dest("/nix", "/image", &taken),
        Some(Step::Finish(Err(_)))
    ));
}

#[test]
fn each_later_request_can_fail() {
    let action = a_move();
    let checked = || vec![directory(), Response::Exists(Ok(false))];
    let mut responses = checked();
    responses.push(Response::Exists(Err(failure())));
    assert!(matches!(
        failed(action.execute(&responses)),
        ActionErrorKind::GettingMetadata(path, _) if path == "/usr/lib"
    ));
    let mut responses = checked();
    responses.push(Response::Exists(Ok(false)));
    responses.push(Response::Done(Err(failure())));
    assert!(matches!(
        failed(action.execute(&responses)),
        ActionErrorKind::CreateDirectory(path, error) if path == "/usr/lib" && error.code == Some(5)
    ));
    let mut responses = checked();
    responses.push(Response::Exists(Ok(true)));
    responses.push(Response::Done(Err(failure())));
    assert!(matches!(
        failed(action.execute(&responses)),
        ActionErrorKind::Rename(from, to, error)
            if from == "/nix" && to == "/usr/lib/nix-install" && error.message == "Input/output error"
    ));
}

#[test]
fn responses_of_the_wrong_kind_are_errors() {
    let action = a_move();
    assert!(matches!(
        failed(action.execute(&vec![Response::Exists(Ok(true))])),
        ActionErrorKind::UnexpectedResponse
    ));
    assert!(matches!(
        failed(action.execute(&vec![directory(), directory()])),
        ActionErrorKind::UnexpectedResponse
    ));
    assert!(matches!(
        failed(action.execute(&vec![directory(), Response::Exists(Ok(false)), directory()])),
        ActionErrorKind::UnexpectedResponse
    ));
    assert!(matches!(
        failed(action.execute(&vec![
            directory(),
            Response::Exists(Ok(false)),
            Response::Exists(Ok(true)),
            Response::Exists(Ok(true))
        ])),
        ActionErrorKind::UnexpectedResponse
    ));
    assert!(matches!(
        MoveDirectory::plan("/nix", "/image", &vec![directory()]),
        Planning::Finish(Err(error)) if matches!(error.kind(), ActionErrorKind::UnexpectedResponse)
    ));
}

#[test]
fn planning_reports_what_it_could_not_find_out() {
    assert!(matches!(
        MoveDirectory::plan("/nix", "/image", &vec![Response::Exists(Err(failure()))]),
        Planning::Finish(Err(error))
            if matches!(error.kind(), ActionErrorKind::GettingMetadata(path, _) if path == "/image")
    ));
    let responses = vec![Response::Exists(Ok(true)), Response::Exists(Err(failure()))];
    assert!(matches!(
        MoveDirectory::plan("/nix", "/image", &responses),
        Planning::Finish(Err(error))
            if matches!(error.kind(), ActionErrorKind::GettingMetadata(path, _) if path == "/nix")
    ));
    let responses = vec![
        Response::Exists(Ok(true)),
        Response::Exists(Ok(false)),
        Response::Metadata(Err(failure())),
    ];
    assert!(matches!(
        MoveDirectory::plan("/nix", "/image", &responses),
        Planning::Finish(Err(error))
            if matches!(error.kind(), ActionErrorKind::GettingMetadata(path, _) if path == "/image")
    ));
}
