use sxredder::gate::Command;
use sxredder::listing::{ChildKind, ScannedChild};
use sxredder::preview::{PreviewContent, PreviewSource};
use sxredder::session::{Effect, Mode, Session};

fn child(path: &str, kind: ChildKind) -> ScannedChild {
    ScannedChild { path: path.to_string(), kind }
}

fn strings(lines: &[&str]) -> Vec<String> {
    lines.iter().map(|line| line.to_string()).collect()
}

fn session() -> Session {
    let scan = Some(vec![
        child("/home/u/notes.txt", ChildKind::File),
        child("/home/u/docs", ChildKind::Directory),
        child("/home/u/secret.txt", ChildKind::File),
    ]);
    Session::new("/home/u", scan, 10).unwrap()
}

#[test]
fn a_new_session() {
    let session = session();
    assert_eq!(session.navigation().current_directory(), "/home/u");
    assert_eq!(session.navigation().cursor(), Some(0));
    assert_eq!(session.selected().unwrap().path(), "/home/u/docs");
    assert!(session.gate().is_idle());
    assert!(session.preview().lines().is_empty());
    let error = Session::new("/nowhere", None, 10).unwrap_err();
    assert_eq!(error.path(), "/nowhere");
}

#[test]
fn moving_asks_for_the_preview() {
    let mut session = session();
    assert!(matches!(session.handle(Command::MoveDown), Effect::Preview));
    assert_eq!(session.navigation().cursor(), Some(1));
    assert_eq!(session.selected().unwrap().path(), "/home/u/notes.txt");
    assert!(matches!(session.handle(Command::MoveUp), Effect::Preview));
    assert!(matches!(session.handle(Command::MoveUp), Effect::Preview));
    assert_eq!(session.navigation().cursor(), Some(2));
    assert_eq!(session.selected().unwrap().path(), "/home/u/secret.txt");
}

#[test]
fn entering_a_directory() {
    let mut session = session();
    match session.handle(Command::EnterOrActivate) {
        Effect::Open(directory) => assert_eq!(directory, "/home/u/docs"),
        other => panic!("unexpected {:?}", other),
    }
    assert_eq!(session.navigation().current_directory(), "/home/u");
    let scan = Some(vec![child("/home/u/docs/b.md", ChildKind::File), child("/home/u/docs/a.md", ChildKind::File)]);
    assert!(session.open("/home/u/docs", scan).is_ok());
    assert_eq!(session.navigation().current_directory(), "/home/u/docs");
    assert_eq!(session.navigation().snapshot().display_names(), strings(&["a.md", "b.md"]));
    assert_eq!(session.navigation().cursor(), Some(0));
}

#[test]
fn activating_a_file_does_nothing() {
    let mut session = session();
    session.handle(Command::MoveDown);
    assert!(matches!(session.handle(Command::EnterOrActivate), Effect::Nothing));
    assert_eq!(session.navigation().cursor(), Some(1));
}

#[test]
fn a_failed_read_keeps_the_session() {
    let mut session = session();
    session.handle(Command::MoveDown);
    let error = session.open("/home/u/docs", None).unwrap_err();
    assert_eq!(error.path(), "/home/u/docs");
    assert_eq!(session.navigation().current_directory(), "/home/u");
    assert_eq!(session.navigation().cursor(), Some(1));
    assert_eq!(session.navigation().snapshot().len(), 3);
}

#[test]
fn leaving_goes_one_level_up() {
    let mut session = session();
    match session.handle(Command::ExitToParent) {
        Effect::Open(directory) => assert_eq!(directory, "/home"),
        other => panic!("unexpected {:?}", other),
    }
    assert!(session.open("/home", Some(vec![child("/home/u", ChildKind::Directory)])).is_ok());
    assert_eq!(session.navigation().current_directory(), "/home");
    match session.handle(Command::ExitToParent) {
        Effect::Open(directory) => assert_eq!(directory, "/"),
        other => panic!("unexpected {:?}", other),
    }
    assert!(session.open("/", Some(vec![child("/home", ChildKind::Directory)])).is_ok());
    assert!(matches!(session.handle(Command::ExitToParent), Effect::Nothing));
    assert_eq!(session.navigation().current_directory(), "/");
}

#[test]
fn leaving_an_empty_directory() {
    let mut session = Session::new("/home/u/empty", Some(vec![]), 10).unwrap();
    assert!(session.selected().is_none());
    assert!(matches!(session.handle(Command::EnterOrActivate), Effect::Nothing));
    assert!(matches!(session.handle(Command::RequestErase), Effect::Nothing));
    assert!(session.gate().is_idle());
    assert!(matches!(session.handle(Command::MoveDown), Effect::Preview));
    assert_eq!(session.navigation().cursor(), None);
    match session.handle(Command::ExitToParent) {
        Effect::Open(directory) => assert_eq!(directory, "/home/u"),
        other => panic!("unexpected {:?}", other),
    }
    let mut root = Session::new("/", Some(vec![]), 10).unwrap();
    assert!(matches!(root.handle(Command::ExitToParent), Effect::Nothing));
}

#[test]
fn quit_ends_the_session_unless_an_answer_is_due() {
    let mut session = session();
    assert!(matches!(session.handle(Command::Quit), Effect::Quit));
    session.handle(Command::MoveDown);
    session.handle(Command::RequestErase);
    assert!(matches!(session.handle(Command::Quit), Effect::Nothing));
    session.handle(Command::Deny);
    assert!(matches!(session.handle(Command::Quit), Effect::Quit));
}

#[test]
fn erasing_needs_a_file_and_a_confirmation() {
    let mut session = session();
    assert!(matches!(session.handle(Command::RequestErase), Effect::Nothing));
    assert!(session.gate().is_idle());
    assert!(matches!(session.handle(Command::Confirm), Effect::Nothing));

    session.handle(Command::MoveDown);
    session.handle(Command::MoveDown);
    assert!(matches!(session.handle(Command::RequestErase), Effect::Nothing));
    assert_eq!(session.gate().pending().unwrap().path(), "/home/u/secret.txt");

    for command in [
        Command::MoveUp,
        Command::MoveDown,
        Command::EnterOrActivate,
        Command::ExitToParent,
        Command::RequestErase,
        Command::Quit,
    ] {
        assert!(matches!(session.handle(command), Effect::Nothing));
        assert_eq!(session.navigation().cursor(), Some(2));
        assert_eq!(session.gate().pending().unwrap().path(), "/home/u/secret.txt");
    }

    match session.handle(Command::Confirm) {
        Effect::Erase(target) => {
            assert_eq!(target.path(), "/home/u/secret.txt");
            assert!(!target.is_directory());
        }
        other => panic!("unexpected {:?}", other),
    }
    assert!(session.gate().is_idle());
    assert!(matches!(session.handle(Command::Confirm), Effect::Nothing));
}

#[test]
fn denying_erases_nothing() {
    let mut session = session();
    session.handle(Command::MoveDown);
    session.handle(Command::RequestErase);
    assert!(session.gate().pending().is_some());
    assert!(matches!(session.handle(Command::Deny), Effect::Nothing));
    assert!(session.gate().is_idle());
    assert!(matches!(session.handle(Command::MoveDown), Effect::Preview));
    assert_eq!(session.navigation().cursor(), Some(2));
}

#[test]
fn the_preview_follows_the_selected_entry() {
    let mut session = session();
    session.show_preview(PreviewSource::Directory(Some(vec![child("/home/u/docs/a.md", ChildKind::File)])));
    assert_eq!(session.preview().lines(), strings(&["a.md"]));
    session.handle(Command::MoveDown);
    session.show_preview(PreviewSource::File(Some(b"first\nsecond\n".to_vec())));
    assert_eq!(session.preview().lines(), strings(&["first", "second"]));
    session.show_preview(PreviewSource::File(None));
    assert!(matches!(session.preview(), PreviewContent::Unavailable));
    assert_eq!(session.preview().lines(), strings(&["preview unavailable"]));
    session.show_preview(PreviewSource::Directory(Some(vec![])));
    assert!(matches!(session.preview(), PreviewContent::Unavailable));
}

#[test]
fn the_preview_keeps_to_the_line_budget() {
    let scan = Some(vec![child("/d/f", ChildKind::File)]);
    let mut session = Session::new("/d", scan, 2).unwrap();
    session.show_preview(PreviewSource::File(Some(b"1\n2\n3\n4\n".to_vec())));
    assert_eq!(session.preview().lines(), strings(&["1", "2"]));
}

#[test]
fn nothing_selected_previews_nothing() {
    let mut session = Session::new("/d", Some(vec![]), 10).unwrap();
    session.show_preview(PreviewSource::File(Some(b"text".to_vec())));
    assert!(session.preview().lines().is_empty());
}

#[test]
fn the_view_model_shows_the_session() {
    let mut session = session();
    session.handle(Command::MoveDown);
    session.show_preview(PreviewSource::File(Some(b"dear diary\n".to_vec())));
    let model = session.view_model();
    assert_eq!(
        model.entries,
        vec![
            ("docs/".to_string(), true),
            ("notes.txt".to_string(), false),
            ("secret.txt".to_string(), false),
        ]
    );
    assert_eq!(model.selected_index, Some(1));
    assert_eq!(model.preview_lines, strings(&["dear diary"]));
    assert!(matches!(model.mode, Mode::Browsing));

    session.handle(Command::RequestErase);
    let model = session.view_model();
    match model.mode {
        Mode::ConfirmPending(name) => assert_eq!(name, "notes.txt"),
        other => panic!("unexpected {:?}", other),
    }
    assert_eq!(model.selected_index, Some(1));

    let empty = Session::new("/d", Some(vec![]), 10).unwrap().view_model();
    assert!(empty.entries.is_empty());
    assert_eq!(empty.selected_index, None);
    assert!(empty.preview_lines.is_empty());
}

#[test]
fn what_is_erased_is_the_file_under_the_cursor() {
    let mut session = session();
    session.handle(Command::MoveDown);
    let selected = session.selected().unwrap().path().to_string();
    session.handle(Command::RequestErase);
    session.handle(Command::MoveDown);
    session.handle(Command::MoveUp);
    match session.handle(Command::Confirm) {
        Effect::Erase(target) => {
            assert_eq!(target.path(), selected);
            assert_eq!(session.selected().unwrap().path(), selected);
        }
        other => panic!("unexpected {:?}", other),
    }
}

#[test]
fn nothing_is_opened_while_an_answer_is_due() {
    let mut session = session();
    session.handle(Command::MoveDown);
    session.handle(Command::RequestErase);
    let scan = Some(vec![child("/other/x", ChildKind::File)]);
    assert!(matches!(session.open("/other", scan), Ok(Effect::Nothing)));
    assert!(matches!(session.open("/other", None), Ok(Effect::Nothing)));
    assert_eq!(session.navigation().current_directory(), "/home/u");
    assert_eq!(session.navigation().cursor(), Some(1));
    assert_eq!(session.gate().pending().unwrap().path(), "/home/u/notes.txt");
    session.handle(Command::Deny);
    let scan = Some(vec![child("/other/x", ChildKind::File)]);
    assert!(matches!(session.open("/other", scan), Ok(Effect::Preview)));
    assert_eq!(session.navigation().current_directory(), "/other");
}
