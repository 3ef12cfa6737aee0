use pomodoro::command::{CommandBuffer, Reaction};
use pomodoro::event::{Event, KeyCode};

fn press(c: char) -> Event {
    Event::KeyPressed(KeyCode::Char(c))
}

fn enter() -> Event {
    Event::KeyPressed(KeyCode::Enter)
}

#[test]
fn colon_q_enter_quits() {
    let mut b = CommandBuffer::new();
    assert_eq!(b.handle(press(':')), Reaction::Edited);
    assert_eq!(b.handle(press('q')), Reaction::Edited);
    assert_eq!(b.handle(enter()), Reaction::Quit);
}

#[test]
fn colon_quit_enter_quits() {
    let mut b = CommandBuffer::new();
    for c in ":quit".chars() {
        b.handle(press(c));
    }
    assert_eq!(b.handle(enter()), Reaction::Quit);
}

#[test]
fn unknown_command_clears() {
    let mut b = CommandBuffer::new();
    for c in ":bad".chars() {
        b.handle(press(c));
    }
    assert_eq!(b.text(), vec![':', 'b', 'a', 'd']);
    assert_eq!(b.handle(enter()), Reaction::Edited);
    assert!(b.is_empty());
}

#[test]
fn backspaced_command_does_not_quit() {
    let mut b = CommandBuffer::new();
    b.handle(press(':'));
    b.handle(press('q'));
    assert_eq!(b.handle(Event::KeyPressed(KeyCode::Backspace)), Reaction::Edited);
    assert_eq!(b.handle(Event::KeyRepeated(KeyCode::Backspace)), Reaction::Edited);
    assert!(b.is_empty());
    assert_eq!(b.handle(enter()), Reaction::Edited);
    assert!(b.is_empty());
}

#[test]
fn backspace_on_empty_is_harmless() {
    let mut b = CommandBuffer::new();
    assert_eq!(b.handle(Event::KeyPressed(KeyCode::Backspace)), Reaction::Edited);
    assert!(b.is_empty());
}

#[test]
fn escape_clears() {
    let mut b = CommandBuffer::new();
    b.handle(press(':'));
    b.handle(press('q'));
    assert_eq!(b.handle(Event::KeyPressed(KeyCode::Esc)), Reaction::Edited);
    assert!(b.is_empty());
    assert_eq!(b.handle(enter()), Reaction::Edited);
}

#[test]
fn plain_chars_on_empty_are_ignored() {
    let mut b = CommandBuffer::new();
    assert_eq!(b.handle(press('q')), Reaction::Ignored);
    assert_eq!(b.handle(Event::KeyRepeated(KeyCode::Char('x'))), Reaction::Ignored);
    assert!(b.is_empty());
}

#[test]
fn repeated_colon_and_chars_append() {
    let mut b = CommandBuffer::new();
    b.handle(Event::KeyRepeated(KeyCode::Char(':')));
    b.handle(Event::KeyRepeated(KeyCode::Char(':')));
    b.handle(Event::KeyRepeated(KeyCode::Char('z')));
    assert_eq!(b.text(), vec![':', ':', 'z']);
}

#[test]
fn releases_ticks_and_other_keys_are_ignored() {
    let mut b = CommandBuffer::new();
    b.handle(press(':'));
    assert_eq!(b.handle(Event::KeyReleased(KeyCode::Char('q'))), Reaction::Ignored);
    assert_eq!(b.handle(Event::KeyReleased(KeyCode::Enter)), Reaction::Ignored);
    assert_eq!(b.handle(Event::KeyRepeated(KeyCode::Enter)), Reaction::Ignored);
    assert_eq!(b.handle(Event::KeyRepeated(KeyCode::Esc)), Reaction::Ignored);
    assert_eq!(b.handle(Event::KeyPressed(KeyCode::Other)), Reaction::Ignored);
    assert_eq!(b.handle(Event::Tick), Reaction::Ignored);
    assert_eq!(b.text(), vec![':']);
}
