use sxredder::gate::Command;
use sxredder::keys::{command_for_key, Key};

#[test]
fn letters_give_commands() {
    assert_eq!(command_for_key(Key::Char('q')), Some(Command::Quit));
    assert_eq!(command_for_key(Key::Char('k')), Some(Command::MoveUp));
    assert_eq!(command_for_key(Key::Char('j')), Some(Command::MoveDown));
    assert_eq!(command_for_key(Key::Char('h')), Some(Command::ExitToParent));
    assert_eq!(command_for_key(Key::Char('l')), Some(Command::EnterOrActivate));
    assert_eq!(command_for_key(Key::Char('x')), Some(Command::RequestErase));
    assert_eq!(command_for_key(Key::Char('y')), Some(Command::Confirm));
    assert_eq!(command_for_key(Key::Char('Y')), Some(Command::Confirm));
    assert_eq!(command_for_key(Key::Char('n')), Some(Command::Deny));
    assert_eq!(command_for_key(Key::Char('N')), Some(Command::Deny));
}

#[test]
fn arrows_and_enter_give_commands() {
    assert_eq!(command_for_key(Key::Up), Some(Command::MoveUp));
    assert_eq!(command_for_key(Key::Down), Some(Command::MoveDown));
    assert_eq!(command_for_key(Key::Left), Some(Command::ExitToParent));
    assert_eq!(command_for_key(Key::Right), Some(Command::EnterOrActivate));
    assert_eq!(command_for_key(Key::Enter), Some(Command::EnterOrActivate));
}

#[test]
fn other_keys_give_nothing() {
    assert_eq!(command_for_key(Key::Other), None);
    for c in ['Q', 'X', 'K', 'J', 'H', 'L', 'a', ' ', '/', '\u{e9}'] {
        assert_eq!(command_for_key(Key::Char(c)), None, "{:?}", c);
    }
}
