use xilo::{
    plan_removal, recursive_flag_unused, Action, Answer, Event, Flags, Question, Removal,
    Session, XiloError,
};

const BIN: &str = "/cache/xilo";

fn flags(recursive: bool, force: bool, permanent: bool) -> Flags {
    Flags { recursive, force, permanent }
}

fn inspected(is_dir: bool, timestamp: &str) -> Event {
    Event::Inspected { is_dir, timestamp: timestamp.to_string() }
}

fn open(f: Flags, targets: &[&str]) -> (Session, Action) {
    Session::start(f, BIN.to_string(), targets.iter().map(|t| t.to_string()).collect())
}

#[test]
fn trash_one_file_with_force_creates_trashbin_and_renames() {
    let (mut s, a) = open(flags(false, true, false), &["/home/u/a.txt"]);
    assert_eq!(a, Action::CreateDirIfMissing(BIN.to_string()));
    assert_eq!(s.step(Event::Succeeded), Action::Inspect("/home/u/a.txt".to_string()));
    let a = s.step(inspected(false, "ts1"));
    let expected_to = format!("{}/{}", BIN, xilo::archival_name("/home/u/a.txt", "ts1").unwrap());
    assert!(expected_to.ends_with("!a.txt"));
    assert_eq!(a, Action::Rename { from: "/home/u/a.txt".to_string(), to: expected_to });
    assert_eq!(s.step(Event::Succeeded), Action::Finish(Ok(())));
    assert!(s.is_finished());
}

#[test]
fn empty_trashbin_with_yes_removes_then_recreates() {
    let (mut s, a) = open(flags(false, false, true), &[]);
    assert_eq!(a, Action::Ask(Question::EmptyTrashbin { trashbin: BIN.to_string() }));
    assert_eq!(s.step(Event::Answered(Answer::Yes)), Action::RemoveDirAll(BIN.to_string()));
    assert_eq!(s.step(Event::Succeeded), Action::CreateDirIfMissing(BIN.to_string()));
    assert_eq!(s.step(Event::Succeeded), Action::Finish(Ok(())));
}

#[test]
fn empty_trashbin_declined_keeps_it() {
    let (mut s, _) = open(flags(false, false, true), &[]);
    assert_eq!(s.step(Event::Answered(Answer::No)), Action::CreateDirIfMissing(BIN.to_string()));
    assert_eq!(s.step(Event::Succeeded), Action::Finish(Ok(())));
}

#[test]
fn empty_trashbin_failure_is_reported() {
    let (mut s, _) = open(flags(false, false, true), &[]);
    s.step(Event::Answered(Answer::Yes));
    assert_eq!(
        s.step(Event::Failed("busy".to_string())),
        Action::Finish(Err(XiloError::RippingTrashbinFailed {
            path: BIN.to_string(),
            detail: "busy".to_string()
        }))
    );
}

#[test]
fn no_targets_without_permanent_does_nothing() {
    let (s, a) = open(flags(true, true, false), &[]);
    assert_eq!(a, Action::Finish(Ok(())));
    assert!(s.is_finished());
}

#[test]
fn trashbin_creation_failure_is_reported() {
    let (mut s, _) = open(flags(false, true, false), &["a"]);
    assert_eq!(
        s.step(Event::Failed("read-only".to_string())),
        Action::Finish(Err(XiloError::XiloInitFailed {
            path: BIN.to_string(),
            detail: "read-only".to_string()
        }))
    );
}

#[test]
fn first_failure_stops_the_batch() {
    let (mut s, _) = open(flags(false, true, false), &["missing.txt", "second.txt"]);
    assert_eq!(s.step(Event::Succeeded), Action::Inspect("missing.txt".to_string()));
    assert!(matches!(s.step(inspected(false, "t")), Action::Rename { .. }));
    assert_eq!(
        s.step(Event::Failed("not found".to_string())),
        Action::Finish(Err(XiloError::RemoveFileFailed {
            path: "missing.txt".to_string(),
            detail: "not found".to_string()
        }))
    );
    assert!(s.is_finished());
    assert_eq!(s.current, 0);
}

#[test]
fn batch_goes_through_every_target() {
    let (mut s, _) = open(flags(true, true, false), &["a", "d"]);
    assert_eq!(s.step(Event::Succeeded), Action::Inspect("a".to_string()));
    s.step(inspected(false, "t"));
    assert_eq!(s.step(Event::Succeeded), Action::Inspect("d".to_string()));
    assert!(matches!(s.step(inspected(true, "t")), Action::Rename { .. }));
    assert_eq!(s.step(Event::Succeeded), Action::Finish(Ok(())));
}

#[test]
fn permanent_with_force_still_asks_and_decline_is_success() {
    let (mut s, _) = open(flags(false, true, true), &["f.txt"]);
    s.step(Event::Succeeded);
    assert_eq!(
        s.step(inspected(false, "t")),
        Action::Ask(Question::RemovePermanently { path: "f.txt".to_string() })
    );
    assert_eq!(s.step(Event::Answered(Answer::No)), Action::Finish(Ok(())));
}

#[test]
fn permanent_file_deleted_after_yes() {
    let (mut s, _) = open(flags(false, false, true), &["f.txt"]);
    s.step(Event::Succeeded);
    s.step(inspected(false, "t"));
    assert_eq!(s.step(Event::Answered(Answer::Yes)), Action::RemoveFile("f.txt".to_string()));
    assert_eq!(
        s.step(Event::Failed("denied".to_string())),
        Action::Finish(Err(XiloError::RemoveFilePermanentlyFailed {
            path: "f.txt".to_string(),
            detail: "denied".to_string()
        }))
    );
}

#[test]
fn permanent_directory_deleted_after_yes() {
    let (mut s, _) = open(flags(true, false, true), &["d"]);
    s.step(Event::Succeeded);
    assert_eq!(
        s.step(inspected(true, "t")),
        Action::Ask(Question::RemovePermanently { path: "d".to_string() })
    );
    assert_eq!(s.step(Event::Answered(Answer::Yes)), Action::RemoveDirAll("d".to_string()));
    assert_eq!(
        s.step(Event::Failed("denied".to_string())),
        Action::Finish(Err(XiloError::RemoveDirPermanentlyFailed {
            path: "d".to_string(),
            detail: "denied".to_string()
        }))
    );
}

#[test]
fn trash_directory_failure_is_reported() {
    let (mut s, _) = open(flags(true, false, false), &["d"]);
    s.step(Event::Succeeded);
    assert_eq!(s.step(inspected(true, "t")), Action::Ask(Question::Remove { path: "d".to_string() }));
    assert!(matches!(s.step(Event::Answered(Answer::Yes)), Action::Rename { .. }));
    assert_eq!(
        s.step(Event::Failed("cross-device".to_string())),
        Action::Finish(Err(XiloError::RemoveDirFailed {
            path: "d".to_string(),
            detail: "cross-device".to_string()
        }))
    );
}

#[test]
fn declined_trash_prompt_skips_to_next_target() {
    let (mut s, _) = open(flags(false, false, false), &["a", "b"]);
    s.step(Event::Succeeded);
    assert_eq!(s.step(inspected(false, "t")), Action::Ask(Question::Remove { path: "a".to_string() }));
    assert_eq!(s.step(Event::Answered(Answer::No)), Action::Inspect("b".to_string()));
}

#[test]
fn directory_without_recursive_is_refused_for_all_flags() {
    for (force, permanent) in [(false, false), (false, true), (true, false), (true, true)] {
        let (mut s, _) = open(flags(false, force, permanent), &["d", "e"]);
        s.step(Event::Succeeded);
        assert_eq!(
            s.step(inspected(true, "t")),
            Action::Finish(Err(XiloError::RemoveDirWithoutRecursiveFlag { path: "d".to_string() }))
        );
        assert!(s.is_finished());
    }
}

#[test]
fn target_without_basename_is_refused() {
    let (mut s, _) = open(flags(false, true, false), &["/"]);
    s.step(Event::Succeeded);
    assert_eq!(
        s.step(inspected(true, "t")),
        Action::Finish(Err(XiloError::RemoveDirWithoutRecursiveFlag { path: "/".to_string() }))
    );
    let (mut s, _) = open(flags(false, true, false), &[".."]);
    s.step(Event::Succeeded);
    assert_eq!(
        s.step(inspected(false, "t")),
        Action::Finish(Err(XiloError::NoFileName { path: "..".to_string() }))
    );
}

#[test]
fn console_failure_is_unexpected() {
    let (mut s, _) = open(flags(false, false, false), &["a"]);
    s.step(Event::Succeeded);
    s.step(inspected(false, "t"));
    assert_eq!(
        s.step(Event::ConsoleFailed("closed".to_string())),
        Action::Finish(Err(XiloError::Unexpected { detail: "closed".to_string() }))
    );
}

#[test]
fn out_of_order_event_is_unexpected() {
    let (mut s, _) = open(flags(false, false, false), &["a"]);
    assert!(matches!(s.step(Event::Answered(Answer::Yes)), Action::Finish(Err(XiloError::Unexpected { .. }))));
}

#[test]
fn plan_for_each_mode() {
    let f = flags(false, false, false);
    match plan_removal("/x/y.txt", false, f, BIN, "t").unwrap() {
        Removal::Trash { from, to, is_dir } => {
            assert_eq!(from, "/x/y.txt");
            assert!(to.starts_with("/cache/xilo/"));
            assert!(to.ends_with("!y.txt"));
            assert!(!is_dir);
        }
        other => panic!("{:?}", other),
    }
    assert_eq!(
        plan_removal("/x/y.txt", false, flags(false, true, true), BIN, "t"),
        Ok(Removal::Delete { path: "/x/y.txt".to_string(), is_dir: false })
    );
}

#[test]
fn recursive_note_only_when_no_directory() {
    assert!(recursive_flag_unused(&[false, false]));
    assert!(!recursive_flag_unused(&[false, true]));
    assert!(!recursive_flag_unused(&[]));
}
